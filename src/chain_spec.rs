//! The chain specification alternatives and their genesis fee schedule.
use vstd::prelude::*;

use crate::category::FeeCategory;
use crate::registry::FeeRegistry;

verus! {

/// The chain specification option, chosen by name on the command line.
#[derive(Clone, Copy, Debug, PartialEq, Eq, Structural)]
pub enum Alternative {
    /// Whatever the current runtime is, with just Alice as an authority.
    Development,
    /// Whatever the current runtime is, with Alice and Bob as authorities.
    LocalTestnet,
}

/// The alternative that a name selects: `dev` the development chain,
/// `local` or the empty name the local testnet, and nothing else any.
pub open spec fn spec_alternative_of(s: Seq<char>) -> Option<Alternative> {
    if s == "dev"@ {
        Some(Alternative::Development)
    } else if s == ""@ || s == "local"@ {
        Some(Alternative::LocalTestnet)
    } else {
        None
    }
}

impl Alternative {
    /// The alternative named by `s`, if any.
    pub fn from(s: &str) -> (r: Option<Self>)
        ensures
            r == spec_alternative_of(s@),
    {
        let name = s.to_owned();
        if name == "dev".to_owned() {
            Some(Alternative::Development)
        } else if name == "".to_owned() || name == "local".to_owned() {
            Some(Alternative::LocalTestnet)
        } else {
            None
        }
    }
}

/// The fee registry at the genesis of both testnet alternatives:
/// base fee 1, bytes rate 0, generic asset transfer fee 1.
pub fn testnet_fee_registry() -> (r: FeeRegistry)
    ensures
        r@ == Map::<FeeCategory, u128>::empty().insert(FeeCategory::spec_base(), 1u128).insert(
            FeeCategory::spec_bytes(),
            0u128,
        ).insert(FeeCategory::spec_transfer(), 1u128),
{
    let mut r = FeeRegistry::new();
    r.set(FeeCategory::base(), 1);
    r.set(FeeCategory::bytes(), 0);
    r.set(FeeCategory::transfer(), 1);
    r
}

} // verus!
