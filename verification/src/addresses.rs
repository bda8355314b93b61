//! Ledger addresses and deterministic address derivation.
//!
//! An address is either a signer-controlled key (an identity that can place
//! a signature on a transaction) or an address derived from a namespace and
//! seeds by a pure, collision-free function.  Derived addresses have no
//! signing key; they are reproducible by any party from the seeds alone.

use vstd::prelude::*;

verus! {

/// Namespace under which per-owner holding accounts are derived.
pub const OWNER_STORAGE_NAMESPACE: u64 = 1;

/// Namespace under which metadata and master-edition records are derived.
pub const METADATA_NAMESPACE: u64 = 2;

/// Second seed distinguishing a metadata record from a master edition.
pub const METADATA_SEED: u64 = 0;

/// Edition marker: second seed of a master-edition address.
pub const EDITION_SEED: u64 = 1;

/// An address on the ledger.
#[derive(PartialEq, Eq, Structural, Clone, Copy, Debug)]
pub enum Address {
    /// A signer-controlled identity (a freshly generated key pair).
    Key(u64),
    /// An address derived from a namespace and two seeds.
    Derived(u64, u64, u64),
}

impl Address {
    /// Only a key address can sign a transaction.
    pub open spec fn is_signer_capable(self) -> bool {
        self is Key
    }
}

/// The derivation function itself: a pure map from namespace and seeds to
/// an address, injective by construction.
pub open spec fn spec_derive(namespace: u64, seed_a: u64, seed_b: u64) -> Address {
    Address::Derived(namespace, seed_a, seed_b)
}

/// Derives the address for a namespace and two seeds.
pub fn derive(namespace: u64, seed_a: u64, seed_b: u64) -> (r: Address)
    ensures
        r == spec_derive(namespace, seed_a, seed_b),
{
    Address::Derived(namespace, seed_a, seed_b)
}

/// Address of the owner-storage record for `owner` holding units of the
/// supply record at `supply`; defined only when both are key addresses.
pub open spec fn spec_owner_storage_address(owner: Address, supply: Address) -> Option<Address> {
    if owner is Key && supply is Key {
        Some(spec_derive(OWNER_STORAGE_NAMESPACE, owner->Key_0, supply->Key_0))
    } else {
        None
    }
}

/// Derives the owner-storage address for `(owner, supply)`.
pub fn owner_storage_address(owner: Address, supply: Address) -> (r: Option<Address>)
    ensures
        r == spec_owner_storage_address(owner, supply),
{
    match (owner, supply) {
        (Address::Key(o), Address::Key(s)) => Some(derive(OWNER_STORAGE_NAMESPACE, o, s)),
        _ => None,
    }
}

/// Address of the metadata record attached to the supply record at `supply`.
pub open spec fn spec_metadata_address(supply: Address) -> Option<Address> {
    if supply is Key {
        Some(spec_derive(METADATA_NAMESPACE, supply->Key_0, METADATA_SEED))
    } else {
        None
    }
}

/// Derives the metadata-record address for `supply`.
pub fn metadata_address(supply: Address) -> (r: Option<Address>)
    ensures
        r == spec_metadata_address(supply),
{
    match supply {
        Address::Key(s) => Some(derive(METADATA_NAMESPACE, s, METADATA_SEED)),
        _ => None,
    }
}

/// Address of the master-edition record attached to the supply record at
/// `supply`: same namespace as the metadata record, distinguished by the
/// edition marker.
pub open spec fn spec_edition_address(supply: Address) -> Option<Address> {
    if supply is Key {
        Some(spec_derive(METADATA_NAMESPACE, supply->Key_0, EDITION_SEED))
    } else {
        None
    }
}

/// Derives the master-edition address for `supply`.
pub fn edition_address(supply: Address) -> (r: Option<Address>)
    ensures
        r == spec_edition_address(supply),
{
    match supply {
        Address::Key(s) => Some(derive(METADATA_NAMESPACE, s, EDITION_SEED)),
        _ => None,
    }
}

/// The three records derived from one supply record sit at pairwise
/// distinct addresses, and none of them collides with any key address.
pub proof fn lemma_derived_addresses_distinct(owner: Address, supply: Address)
    requires
        owner is Key,
        supply is Key,
    ensures
        spec_owner_storage_address(owner, supply) != spec_metadata_address(supply),
        spec_owner_storage_address(owner, supply) != spec_edition_address(supply),
        spec_metadata_address(supply) != spec_edition_address(supply),
        forall|k: Address|
            k is Key ==> spec_owner_storage_address(owner, supply) != Some(k)
                && spec_metadata_address(supply) != Some(k) && spec_edition_address(supply) != Some(k),
{
}

} // verus!
