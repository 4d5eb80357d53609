//! The plain values that go into and come out of the component.

use vstd::prelude::*;
use scrypto::data::scrypto::model::NonFungibleLocalId;
use scrypto::math::Decimal;
use scrypto::types::ResourceAddress;
use crate::ledger::subunits;
use crate::model::Value;

verus! {

/// Why the component refused a call.
#[derive(Clone, Copy, Debug, PartialEq, Eq, Structural)]
pub enum Error {
    /// The asset bucket handed in at creation did not hold exactly one unit.
    InvalidAssetQuantity,
    /// The fee asked is not a quantity of a fungible resource that the call accepts.
    InvalidFeePolicy,
    /// The asset, or the fees, have already been taken out.
    NothingToWithdraw,
    /// The component asks no fee.
    NoFeePolicy,
    /// The expiry asked does not lie after the time of the call.
    InvalidExpiry,
    /// The asset has been withdrawn: no proof will be issued again.
    InactiveComponent,
    /// The time for issuing proofs is over.
    WindowExpired,
    /// A fee is asked and no payment came with the call.
    PaymentRequired,
    /// The payment is of another resource than the fee.
    WrongPaymentAsset,
    /// The payment is less than the fee.
    InsufficientPayment,
    /// The caller did not present the owner's credential.
    Unauthorized,
}

/// The fee asked for each proof.
#[derive(Clone, Copy, Debug)]
pub struct FeeInfo {
    pub resource: ResourceAddress,
    pub amount: Decimal,
}

impl View for FeeInfo {
    type V = Value;

    open spec fn view(&self) -> Value {
        Value { resource: self.resource, amount: subunits(self.amount) }
    }
}

/// An amount of one resource: a payment, what is left of one, the fees
/// collected, or the owner's credential.
#[derive(Clone, Copy, Debug)]
pub struct Funds {
    pub resource: ResourceAddress,
    pub amount: Decimal,
}

impl View for Funds {
    type V = Value;

    open spec fn view(&self) -> Value {
        Value { resource: self.resource, amount: subunits(self.amount) }
    }
}

/// The identity of one non-fungible: its resource and its identifier there.
#[derive(Debug)]
pub struct NftId {
    pub resource: ResourceAddress,
    pub local_id: NonFungibleLocalId,
}

/// Units of one non-fungible resource, on their way into or out of custody.
#[derive(Debug)]
pub struct NftBucket {
    pub resource: ResourceAddress,
    pub local_ids: Vec<NonFungibleLocalId>,
}

/// An attestation that the component held the non-fungible it names at the
/// second it was issued.
#[derive(Debug)]
pub struct NftProof {
    pub nft_id: NftId,
    pub issued_at: i64,
}

/// What an optional payment amounts to.
pub open spec fn value_of(payment: Option<Funds>) -> Option<Value> {
    match payment {
        Some(p) => Some(p@),
        None => None,
    }
}

} // verus!
