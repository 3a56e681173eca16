//! The fee registry: the configured amount of each fee category.
use std::collections::HashMap;
use vstd::prelude::*;

use crate::category::{lemma_category_key_injective, FeeCategory};
use crate::error::FeeError;

verus! {

broadcast use vstd::std_specs::hash::group_hash_axioms;

/// A lookup table from fee category to amount.
pub struct FeeRegistry {
    entries: HashMap<u64, u128>,
}

impl View for FeeRegistry {
    type V = Map<FeeCategory, u128>;

    closed spec fn view(&self) -> Map<FeeCategory, u128> {
        Map::new(
            |c: FeeCategory| self.entries@.contains_key(c.spec_key()),
            |c: FeeCategory| self.entries@[c.spec_key()],
        )
    }
}

/// The amount of `c` in a registry view, if it has one.
pub open spec fn spec_amount_of(reg: Map<FeeCategory, u128>, c: FeeCategory) -> Option<u128> {
    if reg.contains_key(c) {
        Some(reg[c])
    } else {
        None
    }
}

/// Whether a registry view holds the base and bytes categories, which every
/// assessment needs.
pub open spec fn spec_is_configured(reg: Map<FeeCategory, u128>) -> bool {
    reg.contains_key(FeeCategory::spec_base()) && reg.contains_key(FeeCategory::spec_bytes())
}

impl FeeRegistry {
    /// An empty registry.
    pub fn new() -> (r: Self)
        ensures
            r@ == Map::<FeeCategory, u128>::empty(),
    {
        let r = FeeRegistry { entries: HashMap::new() };
        assert(r@ =~= Map::<FeeCategory, u128>::empty());
        r
    }

    /// Registers or overwrites the amount of a category.
    pub fn set(&mut self, c: FeeCategory, amount: u128)
        ensures
            final(self)@ == old(self)@.insert(c, amount),
    {
        let k = c.key();
        self.entries.insert(k, amount);
        proof {
            assert forall|d: FeeCategory| d.spec_key() == k implies d == c by {
                lemma_category_key_injective(d, c);
            }
        }
        assert(final(self)@ =~= old(self)@.insert(c, amount));
    }

    /// The amount of a category, or `None` where the registry has none.
    pub fn amount_of(&self, c: FeeCategory) -> (r: Option<u128>)
        ensures
            r == spec_amount_of(self@, c),
    {
        let k = c.key();
        match self.entries.get(&k) {
            Some(v) => Some(*v),
            None => None,
        }
    }

    /// Checks, at initialization, that the base and bytes categories are
    /// present; names the first one missing otherwise.
    pub fn check_configured(&self) -> (r: Result<(), FeeError>)
        ensures
            r == (if !self@.contains_key(FeeCategory::spec_base()) {
                Err(FeeError::MissingRegistryEntry(FeeCategory::spec_base()))
            } else if !self@.contains_key(FeeCategory::spec_bytes()) {
                Err(FeeError::MissingRegistryEntry(FeeCategory::spec_bytes()))
            } else {
                Ok(())
            }),
            r is Ok <==> spec_is_configured(self@),
    {
        let base = FeeCategory::base();
        if self.amount_of(base).is_none() {
            return Err(FeeError::MissingRegistryEntry(base));
        }
        let bytes = FeeCategory::bytes();
        if self.amount_of(bytes).is_none() {
            return Err(FeeError::MissingRegistryEntry(bytes));
        }
        Ok(())
    }
}

} // verus!
