//! The component as a mathematical state machine: its state, when each
//! operation is refused and with which error, and the state it leaves.

use vstd::prelude::*;
use scrypto::types::ResourceAddress;
use crate::ledger::decimal_max;
use crate::ledger::decimal_min;
use crate::ledger::fungible;
use crate::types::Error;
use crate::types::NftId;

verus! {

/// A quantity of one resource, counted in subunits.
pub struct Value {
    pub resource: ResourceAddress,
    pub amount: int,
}

/// The state of a component.
pub struct Model {
    /// The resource of the owner's credential.
    pub owner: ResourceAddress,
    /// The asset the component was created for.
    pub nft_id: NftId,
    /// The asset in custody, while it is there.
    pub held: Option<NftId>,
    /// The fee asked for each proof, if any.
    pub fee: Option<Value>,
    /// The fees collected and not yet withdrawn, if a fee is asked.
    pub vault: Option<Value>,
    /// The second from which on no proof is issued.
    pub expiry: int,
}

impl Model {
    /// What holds of every state that the operations can reach.
    pub open spec fn valid(self) -> bool {
        &&& self.held is Some ==> self.held == Some(self.nft_id)
        &&& self.fee is Some <==> self.vault is Some
        &&& self.fee is Some ==> {
            &&& self.fee->Some_0.amount >= 0
            &&& self.vault->Some_0.resource == self.fee->Some_0.resource
            &&& self.vault->Some_0.amount >= 0
        }
    }

    /// The asset is in custody: proofs can be issued.
    pub open spec fn active(self) -> bool {
        self.held is Some
    }

    /// The caller presents the owner's credential.
    pub open spec fn authorizes(self, presented: Option<ResourceAddress>) -> bool {
        presented == Some(self.owner)
    }

    /// The vault can take one more fee in: what it would then hold is an
    /// amount that a decimal can stand for.
    pub open spec fn can_accrue(self) -> bool {
        self.fee is Some && self.vault is Some ==> decimal_min() <= self.vault->Some_0.amount
            + self.fee->Some_0.amount <= decimal_max()
    }

    /// The error with which the withdrawal of the asset is refused, if it is.
    pub open spec fn withdraw_nft_refusal(self, presented: Option<ResourceAddress>) -> Option<
        Error,
    > {
        if !self.authorizes(presented) {
            Some(Error::Unauthorized)
        } else if self.held is None {
            Some(Error::NothingToWithdraw)
        } else {
            None
        }
    }

    /// The state after the asset was withdrawn.
    pub open spec fn after_withdraw_nft(self) -> Model {
        Model { held: None, ..self }
    }

    /// The error with which the withdrawal of the fees is refused, if it is.
    pub open spec fn withdraw_fees_refusal(self, presented: Option<ResourceAddress>) -> Option<
        Error,
    > {
        if !self.authorizes(presented) {
            Some(Error::Unauthorized)
        } else if self.fee is None || self.vault is None {
            Some(Error::NoFeePolicy)
        } else if self.vault->Some_0.amount <= 0 {
            Some(Error::NothingToWithdraw)
        } else {
            None
        }
    }

    /// The state after the fees were withdrawn: the vault stays, empty.
    pub open spec fn after_withdraw_fees(self) -> Model {
        Model { vault: Some(Value { resource: self.vault->Some_0.resource, amount: 0 }), ..self }
    }

    /// The error with which a new fee is refused, if it is. Zero is a fee.
    pub open spec fn update_fee_refusal(
        self,
        presented: Option<ResourceAddress>,
        amount: int,
    ) -> Option<Error> {
        if !self.authorizes(presented) {
            Some(Error::Unauthorized)
        } else if self.fee is None || self.vault is None {
            Some(Error::NoFeePolicy)
        } else if amount < 0 {
            Some(Error::InvalidFeePolicy)
        } else {
            None
        }
    }

    /// The state after the fee was set to `amount`.
    pub open spec fn after_update_fee(self, amount: int) -> Model {
        Model { fee: Some(Value { resource: self.fee->Some_0.resource, amount }), ..self }
    }

    /// The error with which a new expiry is refused at the time `now`, if it is.
    pub open spec fn update_expiry_refusal(
        self,
        presented: Option<ResourceAddress>,
        new_timestamp: int,
        now: int,
    ) -> Option<Error> {
        if !self.authorizes(presented) {
            Some(Error::Unauthorized)
        } else if new_timestamp <= now {
            Some(Error::InvalidExpiry)
        } else {
            None
        }
    }

    /// The state after the expiry was set to `new_timestamp`.
    pub open spec fn after_update_expiry(self, new_timestamp: int) -> Model {
        Model { expiry: new_timestamp, ..self }
    }

    /// The error with which a proof is refused at the time `now`, if it is:
    /// the first of the checks that fails, in this order.
    pub open spec fn proof_refusal(self, payment: Option<Value>, now: int) -> Option<Error> {
        if self.held is None {
            Some(Error::InactiveComponent)
        } else if now >= self.expiry {
            Some(Error::WindowExpired)
        } else if self.fee is Some {
            if payment is None {
                Some(Error::PaymentRequired)
            } else if payment->Some_0.resource != self.fee->Some_0.resource {
                Some(Error::WrongPaymentAsset)
            } else if payment->Some_0.amount < self.fee->Some_0.amount {
                Some(Error::InsufficientPayment)
            } else {
                None
            }
        } else {
            None
        }
    }

    /// The state after a proof was issued: the fee, if one is asked, has gone
    /// into the vault, and nothing else has changed.
    pub open spec fn after_proof(self) -> Model {
        if self.fee is Some && self.vault is Some {
            Model {
                vault: Some(
                    Value {
                        resource: self.vault->Some_0.resource,
                        amount: self.vault->Some_0.amount + self.fee->Some_0.amount,
                    },
                ),
                ..self
            }
        } else {
            self
        }
    }

    /// What comes back of the payment when a proof is issued: all but the fee.
    pub open spec fn remainder(self, payment: Option<Value>) -> Option<Value> {
        if self.fee is Some && payment is Some {
            Some(
                Value {
                    resource: payment->Some_0.resource,
                    amount: payment->Some_0.amount - self.fee->Some_0.amount,
                },
            )
        } else {
            payment
        }
    }
}

/// One call of an operation on a component, with what the caller hands in
/// and, where the operation reads the clock, the time of the call.
pub enum Call {
    WithdrawNft { presented: Option<ResourceAddress> },
    WithdrawFees { presented: Option<ResourceAddress> },
    UpdateFee { amount: int, presented: Option<ResourceAddress> },
    UpdateEndTimestamp { new_timestamp: int, now: int, presented: Option<ResourceAddress> },
    GetNftProof { payment: Option<Value>, now: int },
}

impl Model {
    /// The error with which a call is refused, if it is.
    pub open spec fn refusal(self, call: Call) -> Option<Error> {
        match call {
            Call::WithdrawNft { presented } => self.withdraw_nft_refusal(presented),
            Call::WithdrawFees { presented } => self.withdraw_fees_refusal(presented),
            Call::UpdateFee { amount, presented } => self.update_fee_refusal(presented, amount),
            Call::UpdateEndTimestamp { new_timestamp, now, presented } => {
                self.update_expiry_refusal(presented, new_timestamp, now)
            },
            Call::GetNftProof { payment, now } => self.proof_refusal(payment, now),
        }
    }

    /// The state after a call: a refused call changes nothing.
    pub open spec fn step(self, call: Call) -> Model {
        if self.refusal(call) is Some {
            self
        } else {
            match call {
                Call::WithdrawNft { .. } => self.after_withdraw_nft(),
                Call::WithdrawFees { .. } => self.after_withdraw_fees(),
                Call::UpdateFee { amount, .. } => self.after_update_fee(amount),
                Call::UpdateEndTimestamp { new_timestamp, .. } => {
                    self.after_update_expiry(new_timestamp)
                },
                Call::GetNftProof { .. } => self.after_proof(),
            }
        }
    }

    /// The state after a sequence of calls, made one after the other.
    pub open spec fn run(self, calls: Seq<Call>) -> Model
        decreases calls.len(),
    {
        if calls.len() == 0 {
            self
        } else {
            self.run(calls.drop_last()).step(calls.last())
        }
    }
}

/// The error with which the creation of a component is refused at the time
/// `now`, if it is: `units` is the number of asset units handed in, `fee`
/// the fee asked and `expiry` the second from which on no proof is to be
/// issued. The fee is looked at first, then the quantity, then the expiry,
/// which must lie after the time of the call.
pub open spec fn instantiation_refusal(
    units: nat,
    fee: Option<Value>,
    expiry: int,
    now: int,
) -> Option<Error> {
    if fee is Some && !(fungible(fee->Some_0.resource) && fee->Some_0.amount > 0) {
        Some(Error::InvalidFeePolicy)
    } else if units != 1 {
        Some(Error::InvalidAssetQuantity)
    } else if expiry <= now {
        Some(Error::InvalidExpiry)
    } else {
        None
    }
}

/// The state of a component that was just created.
pub open spec fn created(
    owner: ResourceAddress,
    nft_id: NftId,
    fee: Option<Value>,
    expiry: int,
) -> Model {
    Model {
        owner,
        nft_id,
        held: Some(nft_id),
        fee,
        vault: match fee {
            Some(f) => Some(Value { resource: f.resource, amount: 0 }),
            None => None,
        },
        expiry,
    }
}

} // verus!
