//! What holds of the component whatever is done with it, proved over its
//! mathematical model.

use vstd::prelude::*;
use scrypto::types::ResourceAddress;
use crate::ledger::fungible;
use crate::model::created;
use crate::model::instantiation_refusal;
use crate::model::Call;
use crate::model::Model;
use crate::model::Value;
use crate::types::Error;
use crate::types::NftId;

verus! {

/// A component is created only for exactly one unit of the asset: every
/// other quantity is refused, whatever the fee, the expiry and the time,
/// and as an invalid quantity where nothing is wrong with the fee.
pub proof fn lemma_creation_needs_one_unit(units: nat, fee: Option<Value>, expiry: int, now: int)
    requires
        units != 1,
    ensures
        instantiation_refusal(units, fee, expiry, now) is Some,
        fee is None || (fungible(fee->Some_0.resource) && fee->Some_0.amount > 0)
            ==> instantiation_refusal(units, fee, expiry, now) == Some(
            Error::InvalidAssetQuantity,
        ),
{
}

/// A fee that is not above zero, or not of a fungible resource, is refused
/// at creation as an invalid fee policy, whatever the asset bucket holds,
/// and whatever the expiry and the time.
pub proof fn lemma_creation_needs_sound_fee(units: nat, fee: Value, expiry: int, now: int)
    requires
        fee.amount <= 0 || !fungible(fee.resource),
    ensures
        instantiation_refusal(units, Some(fee), expiry, now) == Some(Error::InvalidFeePolicy),
{
}

/// An expiry that does not lie after the time of the call is refused at
/// creation, whatever else is handed in: at the time of the call itself as
/// before it, and as an invalid expiry where nothing is wrong with the fee
/// and the quantity.
pub proof fn lemma_creation_needs_future_expiry(
    units: nat,
    fee: Option<Value>,
    expiry: int,
    now: int,
)
    requires
        expiry <= now,
    ensures
        instantiation_refusal(units, fee, expiry, now) is Some,
        instantiation_refusal(units, fee, now, now) is Some,
        units == 1 && (fee is None || (fungible(fee->Some_0.resource) && fee->Some_0.amount > 0))
            ==> instantiation_refusal(units, fee, expiry, now) == Some(Error::InvalidExpiry),
{
}

/// One unit, with no fee or with a positive fee of a fungible resource, and
/// with an expiry after the time of the call, is accepted, and the
/// component starts in a valid state with the asset in custody, an empty
/// vault exactly where a fee is asked, and the expiry given: a proof can be
/// asked for at the time of creation.
pub proof fn lemma_creation_accepts(
    owner: ResourceAddress,
    nft_id: NftId,
    fee: Option<Value>,
    expiry: int,
    now: int,
)
    requires
        fee is Some ==> fee->Some_0.amount > 0 && fungible(fee->Some_0.resource),
        expiry > now,
    ensures
        instantiation_refusal(1, fee, expiry, now) is None,
        created(owner, nft_id, fee, expiry).valid(),
        created(owner, nft_id, fee, expiry).active(),
        created(owner, nft_id, fee, expiry).held == Some(nft_id),
        created(owner, nft_id, fee, expiry).fee == fee,
        created(owner, nft_id, fee, expiry).vault is Some <==> fee is Some,
        created(owner, nft_id, fee, expiry).expiry == expiry,
        now < created(owner, nft_id, fee, expiry).expiry,
{
}

/// A component is created exactly where the fee is absent or sound, the
/// bucket holds one unit and the expiry lies after the time of the call.
pub proof fn lemma_creation_exactly(units: nat, fee: Option<Value>, expiry: int, now: int)
    ensures
        instantiation_refusal(units, fee, expiry, now) is None <==> {
            &&& fee is Some ==> fee->Some_0.amount > 0 && fungible(fee->Some_0.resource)
            &&& units == 1
            &&& expiry > now
        },
{
}

/// Every call leaves a valid state valid: the asset in custody is the one
/// the component was created for, a vault exists exactly where a fee is
/// asked, and neither the fee nor the vault's balance is below zero.
pub proof fn lemma_step_keeps_valid(s: Model, call: Call)
    requires
        s.valid(),
    ensures
        s.step(call).valid(),
{
}

/// No call changes the owner's credential or the asset that the component
/// was created for, and none brings a fee policy into being or removes one.
pub proof fn lemma_step_keeps_identity(s: Model, call: Call)
    requires
        s.valid(),
    ensures
        s.step(call).owner == s.owner,
        s.step(call).nft_id == s.nft_id,
        s.step(call).fee is Some <==> s.fee is Some,
        s.step(call).held is Some ==> s.step(call).held == s.held,
{
}

/// What the two laws above say of one call holds of every sequence of calls.
pub proof fn lemma_run_keeps_valid(s: Model, calls: Seq<Call>)
    requires
        s.valid(),
    ensures
        s.run(calls).valid(),
        s.run(calls).owner == s.owner,
        s.run(calls).nft_id == s.nft_id,
        s.run(calls).fee is Some <==> s.fee is Some,
        s.run(calls).held is Some ==> s.run(calls).held == s.held,
    decreases calls.len(),
{
    if calls.len() > 0 {
        lemma_run_keeps_valid(s, calls.drop_last());
        lemma_step_keeps_valid(s.run(calls.drop_last()), calls.last());
        lemma_step_keeps_identity(s.run(calls.drop_last()), calls.last());
    }
}

/// Once the asset is out of custody it stays out, whatever is called.
pub proof fn lemma_depleted_stays_depleted(s: Model, calls: Seq<Call>)
    requires
        !s.active(),
    ensures
        !s.run(calls).active(),
    decreases calls.len(),
{
    if calls.len() > 0 {
        lemma_depleted_stays_depleted(s, calls.drop_last());
    }
}

/// After the asset was withdrawn, every request for a proof is refused as
/// made to an inactive component: whatever was called in between, whatever
/// the payment and whatever the time.
pub proof fn lemma_no_proof_after_withdrawal(
    s: Model,
    presented: Option<ResourceAddress>,
    calls: Seq<Call>,
    payment: Option<Value>,
    now: int,
)
    requires
        s.withdraw_nft_refusal(presented) is None,
    ensures
        s.after_withdraw_nft().run(calls).proof_refusal(payment, now) == Some(
            Error::InactiveComponent,
        ),
{
    lemma_depleted_stays_depleted(s.after_withdraw_nft(), calls);
}

/// A proof is issued only while the asset is in custody and before the expiry.
pub proof fn lemma_proof_needs_custody_and_time(s: Model, payment: Option<Value>, now: int)
    requires
        s.proof_refusal(payment, now) is None,
    ensures
        s.active(),
        now < s.expiry,
{
}

/// The payment meets the fee: none is asked, or the payment is of the fee's
/// resource and not less than the fee.
pub open spec fn fee_met(s: Model, payment: Option<Value>) -> bool {
    s.fee is Some ==> {
        &&& payment is Some
        &&& payment->Some_0.resource == s.fee->Some_0.resource
        &&& payment->Some_0.amount >= s.fee->Some_0.amount
    }
}

/// An active component that is paid what it asks issues a proof exactly
/// before the expiry. At the expiry itself, and after it, it refuses with
/// `WindowExpired`.
pub proof fn lemma_proof_window(s: Model, payment: Option<Value>, now: int)
    requires
        s.active(),
        fee_met(s, payment),
    ensures
        s.proof_refusal(payment, now) is None <==> now < s.expiry,
        now >= s.expiry ==> s.proof_refusal(payment, now) == Some(Error::WindowExpired),
        s.proof_refusal(payment, s.expiry) == Some(Error::WindowExpired),
{
}

/// Where a fee is asked, an issued proof moves exactly the fee from the
/// payment into the vault: the rest that comes back is the payment less the
/// fee, of the same resource, and the vault holds the fee more than before.
pub proof fn lemma_fee_is_moved(s: Model, payment: Option<Value>, now: int)
    requires
        s.valid(),
        s.fee is Some,
        s.proof_refusal(payment, now) is None,
    ensures
        payment is Some,
        s.remainder(payment) == Some(
            Value {
                resource: payment->Some_0.resource,
                amount: payment->Some_0.amount - s.fee->Some_0.amount,
            },
        ),
        s.remainder(payment)->Some_0.amount >= 0,
        s.after_proof().vault->Some_0.amount == s.vault->Some_0.amount + s.fee->Some_0.amount,
        s.after_proof().vault->Some_0.resource == s.vault->Some_0.resource,
        s.after_proof() == (Model { vault: s.after_proof().vault, ..s }),
{
}

/// Where a fee is asked, a request with no payment, with a payment of
/// another resource, or with less than the fee is refused; on an active
/// component before its expiry, with the error that names the fault.
pub proof fn lemma_fee_is_required(s: Model, payment: Option<Value>, now: int)
    requires
        s.fee is Some,
        !fee_met(s, payment),
    ensures
        s.proof_refusal(payment, now) is Some,
        s.active() && now < s.expiry ==> s.proof_refusal(payment, now) == Some(
            if payment is None {
                Error::PaymentRequired
            } else if payment->Some_0.resource != s.fee->Some_0.resource {
                Error::WrongPaymentAsset
            } else {
                Error::InsufficientPayment
            },
        ),
{
}

/// Where no fee is asked, an issued proof leaves the payment and the state
/// as they were, and nobody can withdraw fees or set a fee: the owner is
/// told that there is no fee policy.
pub proof fn lemma_no_fee_policy(
    s: Model,
    payment: Option<Value>,
    presented: Option<ResourceAddress>,
    amount: int,
)
    requires
        s.fee is None,
    ensures
        s.remainder(payment) == payment,
        s.after_proof() == s,
        s.withdraw_fees_refusal(presented) is Some,
        s.update_fee_refusal(presented, amount) is Some,
        s.authorizes(presented) ==> {
            &&& s.withdraw_fees_refusal(presented) == Some(Error::NoFeePolicy)
            &&& s.update_fee_refusal(presented, amount) == Some(Error::NoFeePolicy)
        },
{
}

/// A new expiry is refused unless it lies after the time of the call. One
/// that does is accepted from the owner and is the expiry from then on,
/// whether it lies before or after the one it replaces.
pub proof fn lemma_expiry_must_be_future(
    s: Model,
    presented: Option<ResourceAddress>,
    new_timestamp: int,
    now: int,
)
    ensures
        new_timestamp <= now ==> s.update_expiry_refusal(presented, new_timestamp, now) is Some,
        s.authorizes(presented) && new_timestamp <= now ==> s.update_expiry_refusal(
            presented,
            new_timestamp,
            now,
        ) == Some(Error::InvalidExpiry),
        s.authorizes(presented) && new_timestamp > now ==> {
            &&& s.update_expiry_refusal(presented, new_timestamp, now) is None
            &&& s.after_update_expiry(new_timestamp).expiry == new_timestamp
            &&& s.after_update_expiry(new_timestamp) == (Model { expiry: new_timestamp, ..s })
        },
{
}

/// Whoever does not present the owner's credential is refused by each of
/// the owner's operations as unauthorized, whatever else holds.
pub proof fn lemma_owner_only(
    s: Model,
    presented: Option<ResourceAddress>,
    amount: int,
    new_timestamp: int,
    now: int,
)
    requires
        presented != Some(s.owner),
    ensures
        s.withdraw_nft_refusal(presented) == Some(Error::Unauthorized),
        s.withdraw_fees_refusal(presented) == Some(Error::Unauthorized),
        s.update_fee_refusal(presented, amount) == Some(Error::Unauthorized),
        s.update_expiry_refusal(presented, new_timestamp, now) == Some(Error::Unauthorized),
{
}

} // verus!
