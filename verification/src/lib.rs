//! Custody of a single non-fungible asset with leasing of possession proofs.
//!
//! A [`FlashProof`] holds one non-fungible in escrow for its owner and hands
//! out attestations that the asset is held, for an optional fee and until an
//! expiry that the owner controls. Amounts and resource addresses are those
//! of the Radix ledger; the clock and the caller's credential are handed in
//! by the host.

pub mod component;
pub mod laws;
pub mod ledger;
pub mod model;
pub mod types;

pub use component::FlashProof;
