//! A verified model of a single-transaction asset-minting pipeline.
//!
//! The pipeline provisions a token-supply record, issues exactly one unit
//! of it to an owner, and attaches immutable display metadata and a
//! master-edition cap — six strictly ordered stages over an explicit
//! keyed ledger, succeeding or failing as one indivisible unit.
//!
//! - `addresses`: ledger addresses and the pure, collision-free
//!   derivation of owner-storage, metadata and edition addresses.
//! - `model`: the records, the error taxonomy and the fixed parameters.
//! - `ledger`: the keyed store, viewed as a map from address to account.
//! - `pipeline`: the six stages and the `mint` entry point, each pinned
//!   to a spec function that decides success and error for every input.
//! - `laws`: the properties of the flow, proved over those spec functions.
//! - `instructions`: the delegated-call messages for the metadata
//!   program, assembled through the metadata program's own client crate.

use vstd::prelude::*;

pub mod addresses;
pub mod instructions;
pub mod laws;
pub mod ledger;
pub mod model;
pub mod pipeline;

pub use addresses::Address;
pub use ledger::Ledger;
pub use model::MintError;
pub use pipeline::{mint, MintNft};

verus! {

} // verus!
