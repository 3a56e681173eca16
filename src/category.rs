//! Fee categories and operation identities, both two-level tags.
use vstd::prelude::*;

verus! {

/// Namespace of the transaction-wide fees (base and per-byte).
pub const NAMESPACE_FEES: u32 = 0;

/// Namespace of the fees of the generic asset module.
pub const NAMESPACE_GENERIC_ASSET: u32 = 1;

/// The flat fee charged for every extrinsic.
pub const FEE_BASE: u32 = 0;

/// The fee charged per encoded byte of an extrinsic.
pub const FEE_BYTES: u32 = 1;

/// The fee of a generic asset transfer.
pub const FEE_TRANSFER: u32 = 0;

/// Module tag of the generic asset module.
pub const MODULE_GENERIC_ASSET: u32 = 1;

/// Method tag of `transfer` within the generic asset module.
pub const CALL_TRANSFER: u32 = 0;

/// The 64-bit key of a pair of 32-bit tags: the first tag in the high half.
pub open spec fn spec_pair_key(high: u32, low: u32) -> u64 {
    ((high as u64) << 32u64) | (low as u64)
}

/// Distinct pairs of tags have distinct keys.
pub proof fn lemma_pair_key_injective(a1: u32, b1: u32, a2: u32, b2: u32)
    ensures
        spec_pair_key(a1, b1) == spec_pair_key(a2, b2) <==> (a1 == a2 && b1 == b2),
{
    let x1 = a1 as u64;
    let y1 = b1 as u64;
    let x2 = a2 as u64;
    let y2 = b2 as u64;
    assert(x1 < 0x1_0000_0000u64 && y1 < 0x1_0000_0000u64 && x2 < 0x1_0000_0000u64
        && y2 < 0x1_0000_0000u64);
    assert(((x1 << 32u64) | y1) == ((x2 << 32u64) | y2) <==> (x1 == x2 && y1 == y2)) by (bit_vector)
        requires
            x1 < 0x1_0000_0000u64,
            y1 < 0x1_0000_0000u64,
            x2 < 0x1_0000_0000u64,
            y2 < 0x1_0000_0000u64,
    ;
}

/// Computes the key of a pair of tags.
pub fn pair_key(high: u32, low: u32) -> (r: u64)
    ensures
        r == spec_pair_key(high, low),
{
    ((high as u64) << 32u64) | (low as u64)
}

/// A fee category: a namespace and a variant within it.
#[derive(Clone, Copy, Debug, PartialEq, Eq, Structural)]
pub struct FeeCategory {
    pub namespace: u32,
    pub variant: u32,
}

impl FeeCategory {
    /// The key under which the category is stored.
    pub open spec fn spec_key(self) -> u64 {
        spec_pair_key(self.namespace, self.variant)
    }

    /// Computes the key under which the category is stored.
    pub fn key(&self) -> (r: u64)
        ensures
            r == self.spec_key(),
    {
        pair_key(self.namespace, self.variant)
    }

    /// The flat base fee, as a value of the model.
    pub open spec fn spec_base() -> Self {
        FeeCategory { namespace: NAMESPACE_FEES, variant: FEE_BASE }
    }

    /// The per-byte fee, as a value of the model.
    pub open spec fn spec_bytes() -> Self {
        FeeCategory { namespace: NAMESPACE_FEES, variant: FEE_BYTES }
    }

    /// The generic asset transfer fee, as a value of the model.
    pub open spec fn spec_transfer() -> Self {
        FeeCategory { namespace: NAMESPACE_GENERIC_ASSET, variant: FEE_TRANSFER }
    }

    /// The flat base fee.
    pub fn base() -> (r: Self)
        ensures
            r == Self::spec_base(),
    {
        FeeCategory { namespace: NAMESPACE_FEES, variant: FEE_BASE }
    }

    /// The per-byte fee.
    pub fn bytes() -> (r: Self)
        ensures
            r == Self::spec_bytes(),
    {
        FeeCategory { namespace: NAMESPACE_FEES, variant: FEE_BYTES }
    }

    /// The fee of a generic asset transfer.
    pub fn transfer() -> (r: Self)
        ensures
            r == Self::spec_transfer(),
    {
        FeeCategory { namespace: NAMESPACE_GENERIC_ASSET, variant: FEE_TRANSFER }
    }
}

/// Two categories share a key exactly when they are the same category.
pub proof fn lemma_category_key_injective(a: FeeCategory, b: FeeCategory)
    ensures
        a.spec_key() == b.spec_key() <==> a == b,
{
    lemma_pair_key_injective(a.namespace, a.variant, b.namespace, b.variant);
}

} // verus!
