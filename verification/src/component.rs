//! The component itself.

use vstd::prelude::*;
use scrypto::data::scrypto::model::NonFungibleLocalId;
use scrypto::math::Decimal;
use scrypto::types::ResourceAddress;
use crate::ledger::clone_local_id;
use crate::ledger::decimal_checked_add;
use crate::ledger::decimal_is_negative;
use crate::ledger::decimal_is_positive;
use crate::ledger::decimal_le;
use crate::ledger::decimal_one;
use crate::ledger::decimal_sub;
use crate::ledger::decimal_zero;
use crate::ledger::one_unit;
use crate::ledger::resource_is_fungible;
use crate::ledger::same_resource;
use crate::ledger::subunits;
use crate::model::created;
use crate::model::instantiation_refusal;
use crate::model::Call;
use crate::model::Model;
use crate::model::Value;
use crate::types::value_of;
use crate::types::Error;
use crate::types::FeeInfo;
use crate::types::Funds;
use crate::types::NftBucket;
use crate::types::NftId;
use crate::types::NftProof;

verus! {

/// One non-fungible in escrow, with the fee asked for a proof of it, the
/// fees collected, and the time until which proofs are issued.
pub struct FlashProof {
    owner_resource: ResourceAddress,
    nft_vault: Option<NftId>,
    nft_id: NftId,
    fee_info: Option<FeeInfo>,
    fee_vault: Option<Funds>,
    end_timestamp: i64,
}

/// What an optional fee amounts to.
pub open spec fn fee_of(fee_info: Option<FeeInfo>) -> Option<Value> {
    match fee_info {
        Some(f) => Some(f@),
        None => None,
    }
}

/// The state that the recorded parts of a component stand for.
pub open spec fn recorded(
    owner_resource: ResourceAddress,
    nft_id: NftId,
    in_custody: bool,
    fee_info: Option<FeeInfo>,
    fee_vault: Option<Funds>,
    end_timestamp: i64,
) -> Model {
    Model {
        owner: owner_resource,
        nft_id,
        held: if in_custody {
            Some(nft_id)
        } else {
            None
        },
        fee: fee_of(fee_info),
        vault: value_of(fee_vault),
        expiry: end_timestamp as int,
    }
}

/// What a request for a proof has to answer: made with `payment` at the time
/// `now` on a component in the state `before`, it gave `r` and left the
/// component in the state `after`.
pub open spec fn answers(
    before: Model,
    after: Model,
    payment: Option<Funds>,
    now: i64,
    r: Result<(NftProof, Option<Funds>), Error>,
) -> bool {
    match r {
        Ok((proof, rest)) => {
            &&& before.proof_refusal(value_of(payment), now as int) is None
            &&& after == before.after_proof()
            &&& proof.nft_id == before.nft_id
            &&& proof.issued_at == now
            &&& value_of(rest) == before.remainder(value_of(payment))
            &&& before.fee is None ==> rest == payment
        },
        Err(e) => {
            &&& before.proof_refusal(value_of(payment), now as int) == Some(e)
            &&& after == before
        },
    }
}

impl View for FlashProof {
    type V = Model;

    closed spec fn view(&self) -> Model {
        Model {
            owner: self.owner_resource,
            nft_id: self.nft_id,
            held: self.nft_vault,
            fee: fee_of(self.fee_info),
            vault: value_of(self.fee_vault),
            expiry: self.end_timestamp as int,
        }
    }
}

impl FlashProof {
    /// The component's state is one that the operations can reach.
    pub open spec fn wf(&self) -> bool {
        self@.valid()
    }

    /// Whether a component can be created at the time `now` for the bucket,
    /// with the fee asked and the expiry given.
    ///
    /// A fee, if asked, must be a positive amount of a fungible resource,
    /// the bucket must hold exactly one unit, and the expiry must lie after
    /// `now`.
    pub fn check_instantiation(
        nft: &NftBucket,
        fee_info: Option<FeeInfo>,
        end_timestamp: i64,
        now: i64,
    ) -> (r: Result<(), Error>)
        ensures
            match r {
                Ok(_) => instantiation_refusal(
                    nft.local_ids@.len(),
                    fee_of(fee_info),
                    end_timestamp as int,
                    now as int,
                ) is None,
                Err(e) => instantiation_refusal(
                    nft.local_ids@.len(),
                    fee_of(fee_info),
                    end_timestamp as int,
                    now as int,
                ) == Some(e),
            },
    {
        if let Some(fee) = fee_info {
            if !resource_is_fungible(fee.resource) || !decimal_is_positive(fee.amount) {
                return Err(Error::InvalidFeePolicy);
            }
        }
        if nft.local_ids.len() != 1 {
            return Err(Error::InvalidAssetQuantity);
        }
        if end_timestamp <= now {
            return Err(Error::InvalidExpiry);
        }
        Ok(())
    }

    /// Takes one non-fungible into custody and creates the component for
    /// it, at the time `now`.
    ///
    /// `owner_resource` is the resource of the credential minted for this
    /// component; one unit of it comes back as the owner's badge. The call
    /// is refused where `check_instantiation` refuses, and a refused call
    /// hands the bucket back. The vault for the fees is opened, empty,
    /// exactly where a fee is asked.
    pub fn instantiate(
        nft: NftBucket,
        fee_info: Option<FeeInfo>,
        end_timestamp: i64,
        now: i64,
        owner_resource: ResourceAddress,
    ) -> (r: Result<(FlashProof, Funds), (Error, NftBucket)>)
        ensures
            match r {
                Ok((component, badge)) => {
                    &&& instantiation_refusal(
                        nft.local_ids@.len(),
                        fee_of(fee_info),
                        end_timestamp as int,
                        now as int,
                    ) is None
                    &&& component.wf()
                    &&& component@ == created(
                        owner_resource,
                        (NftId { resource: nft.resource, local_id: nft.local_ids@[0] }),
                        fee_of(fee_info),
                        end_timestamp as int,
                    )
                    &&& badge@ == (Value { resource: owner_resource, amount: one_unit() })
                },
                Err((e, returned)) => {
                    &&& instantiation_refusal(
                        nft.local_ids@.len(),
                        fee_of(fee_info),
                        end_timestamp as int,
                        now as int,
                    ) == Some(e)
                    &&& returned == nft
                },
            },
    {
        if let Err(e) = Self::check_instantiation(&nft, fee_info, end_timestamp, now) {
            return Err((e, nft));
        }
        let NftBucket { resource, local_ids } = nft;
        let mut local_ids = local_ids;
        let local_id = local_ids.pop().unwrap();
        let fee_vault = match fee_info {
            Some(fee) => Some(Funds { resource: fee.resource, amount: decimal_zero() }),
            None => None,
        };
        let component = FlashProof {
            owner_resource,
            nft_id: NftId { resource, local_id: clone_local_id(&local_id) },
            nft_vault: Some(NftId { resource, local_id }),
            fee_info,
            fee_vault,
            end_timestamp,
        };
        let badge = Funds { resource: owner_resource, amount: decimal_one() };
        Ok((component, badge))
    }

    /// Puts a component together from its recorded parts: the owner's
    /// resource, the asset it was created for and whether that is still in
    /// custody, the fee asked, the fees collected and the expiry.
    ///
    /// The parts must make a state that the operations can reach: fees are
    /// collected exactly where a fee is asked and in the fee's resource, and
    /// neither the fee nor what was collected is below zero.
    pub fn restore(
        owner_resource: ResourceAddress,
        nft_id: NftId,
        in_custody: bool,
        fee_info: Option<FeeInfo>,
        fee_vault: Option<Funds>,
        end_timestamp: i64,
    ) -> (r: Option<FlashProof>)
        ensures
            r is Some <==> recorded(
                owner_resource,
                nft_id,
                in_custody,
                fee_info,
                fee_vault,
                end_timestamp,
            ).valid(),
            r is Some ==> r->Some_0.wf() && r->Some_0@ == recorded(
                owner_resource,
                nft_id,
                in_custody,
                fee_info,
                fee_vault,
                end_timestamp,
            ),
    {
        match (fee_info, fee_vault) {
            (None, None) => {},
            (Some(fee), Some(vault)) => {
                if decimal_is_negative(fee.amount) || decimal_is_negative(vault.amount)
                    || !same_resource(vault.resource, fee.resource) {
                    return None;
                }
            },
            _ => { return None; },
        }
        let nft_vault = if in_custody {
            Some(NftId { resource: nft_id.resource, local_id: clone_local_id(&nft_id.local_id) })
        } else {
            None
        };
        Some(FlashProof { owner_resource, nft_vault, nft_id, fee_info, fee_vault, end_timestamp })
    }

    /// Whether `presented` is the owner's credential.
    fn authorized(&self, presented: Option<ResourceAddress>) -> (r: bool)
        ensures
            r == self@.authorizes(presented),
    {
        match presented {
            Some(resource) => same_resource(resource, self.owner_resource),
            None => false,
        }
    }

    /// Hands the asset back to the owner. From then on the component issues
    /// no proof.
    pub fn withdraw_nft(&mut self, presented: Option<ResourceAddress>) -> (r: Result<
        NftBucket,
        Error,
    >)
        requires
            old(self).wf(),
        ensures
            final(self).wf(),
            final(self)@ == old(self)@.step(Call::WithdrawNft { presented }),
            match r {
                Ok(bucket) => {
                    &&& old(self)@.withdraw_nft_refusal(presented) is None
                    &&& final(self)@ == old(self)@.after_withdraw_nft()
                    &&& bucket.resource == old(self)@.nft_id.resource
                    &&& bucket.local_ids@ == seq![old(self)@.nft_id.local_id]
                },
                Err(e) => {
                    &&& old(self)@.withdraw_nft_refusal(presented) == Some(e)
                    &&& *final(self) == *old(self)
                },
            },
    {
        if !self.authorized(presented) {
            return Err(Error::Unauthorized);
        }
        match self.nft_vault.take() {
            None => Err(Error::NothingToWithdraw),
            Some(held) => {
                let NftId { resource, local_id } = held;
                let mut local_ids: Vec<NonFungibleLocalId> = Vec::new();
                local_ids.push(local_id);
                assert(local_ids@ =~= seq![local_id]);
                Ok(NftBucket { resource, local_ids })
            },
        }
    }

    /// Hands all the collected fees to the owner. The vault stays, empty.
    pub fn withdraw_fees(&mut self, presented: Option<ResourceAddress>) -> (r: Result<Funds, Error>)
        requires
            old(self).wf(),
        ensures
            final(self).wf(),
            final(self)@ == old(self)@.step(Call::WithdrawFees { presented }),
            match r {
                Ok(fees) => {
                    &&& old(self)@.withdraw_fees_refusal(presented) is None
                    &&& final(self)@ == old(self)@.after_withdraw_fees()
                    &&& Some(fees@) == old(self)@.vault
                },
                Err(e) => {
                    &&& old(self)@.withdraw_fees_refusal(presented) == Some(e)
                    &&& *final(self) == *old(self)
                },
            },
    {
        if !self.authorized(presented) {
            return Err(Error::Unauthorized);
        }
        match self.fee_vault {
            None => Err(Error::NoFeePolicy),
            Some(fees) => {
                if !decimal_is_positive(fees.amount) {
                    return Err(Error::NothingToWithdraw);
                }
                self.fee_vault = Some(Funds { resource: fees.resource, amount: decimal_zero() });
                Ok(fees)
            },
        }
    }

    /// Sets the fee asked for each proof. Zero makes proofs free while the
    /// component still asks for a payment to be attached.
    pub fn update_fee(&mut self, amount: Decimal, presented: Option<ResourceAddress>) -> (r: Result<
        (),
        Error,
    >)
        requires
            old(self).wf(),
        ensures
            final(self).wf(),
            final(self)@ == old(self)@.step(Call::UpdateFee { amount: subunits(amount), presented }),
            match r {
                Ok(_) => {
                    &&& old(self)@.update_fee_refusal(presented, subunits(amount)) is None
                    &&& final(self)@ == old(self)@.after_update_fee(subunits(amount))
                },
                Err(e) => {
                    &&& old(self)@.update_fee_refusal(presented, subunits(amount)) == Some(e)
                    &&& *final(self) == *old(self)
                },
            },
    {
        if !self.authorized(presented) {
            return Err(Error::Unauthorized);
        }
        match self.fee_info {
            None => Err(Error::NoFeePolicy),
            Some(fee) => {
                if decimal_is_negative(amount) {
                    return Err(Error::InvalidFeePolicy);
                }
                self.fee_info = Some(FeeInfo { resource: fee.resource, amount });
                Ok(())
            },
        }
    }

    /// Sets the second from which on no proof is issued. It must lie after
    /// `now`; it may lie before the expiry it replaces.
    pub fn update_end_timestamp(
        &mut self,
        new_timestamp: i64,
        now: i64,
        presented: Option<ResourceAddress>,
    ) -> (r: Result<(), Error>)
        requires
            old(self).wf(),
        ensures
            final(self).wf(),
            final(self)@ == old(self)@.step(
                Call::UpdateEndTimestamp {
                    new_timestamp: new_timestamp as int,
                    now: now as int,
                    presented,
                },
            ),
            match r {
                Ok(_) => {
                    &&& old(self)@.update_expiry_refusal(
                        presented,
                        new_timestamp as int,
                        now as int,
                    ) is None
                    &&& final(self)@ == old(self)@.after_update_expiry(new_timestamp as int)
                },
                Err(e) => {
                    &&& old(self)@.update_expiry_refusal(
                        presented,
                        new_timestamp as int,
                        now as int,
                    ) == Some(e)
                    &&& *final(self) == *old(self)
                },
            },
    {
        if !self.authorized(presented) {
            return Err(Error::Unauthorized);
        }
        if new_timestamp <= now {
            return Err(Error::InvalidExpiry);
        }
        self.end_timestamp = new_timestamp;
        Ok(())
    }

    /// Issues a proof that the asset is held, at the time `now`.
    ///
    /// The asset stays where it is. Where a fee is asked, it is taken from
    /// the payment into the vault and the rest comes back; where none is
    /// asked, the payment comes back as it was. A refused request changes
    /// nothing. The vault must have room for the fee: `can_accrue` tells
    /// whether it has, and `try_get_nft_proof` asks for nothing.
    pub fn get_nft_proof(&mut self, payment: Option<Funds>, now: i64) -> (r: Result<
        (NftProof, Option<Funds>),
        Error,
    >)
        requires
            old(self).wf(),
            old(self)@.proof_refusal(value_of(payment), now as int) is None ==> old(
                self,
            )@.can_accrue(),
        ensures
            final(self).wf(),
            final(self)@ == old(self)@.step(
                Call::GetNftProof { payment: value_of(payment), now: now as int },
            ),
            answers(old(self)@, final(self)@, payment, now, r),
            r is Err ==> *final(self) == *old(self),
    {
        self.try_get_nft_proof(payment, now).unwrap()
    }

    /// Issues a proof as `get_nft_proof` does, unless the request is in
    /// order and the vault has no room for the fee: then the result is
    /// `None` and nothing has changed.
    pub fn try_get_nft_proof(&mut self, payment: Option<Funds>, now: i64) -> (r: Option<
        Result<(NftProof, Option<Funds>), Error>,
    >)
        requires
            old(self).wf(),
        ensures
            final(self).wf(),
            r is Some ==> final(self)@ == old(self)@.step(
                Call::GetNftProof { payment: value_of(payment), now: now as int },
            ),
            r is None <==> old(self)@.proof_refusal(value_of(payment), now as int) is None && !old(
                self,
            )@.can_accrue(),
            r is Some ==> answers(old(self)@, final(self)@, payment, now, r->Some_0),
            !(r matches Some(Ok(_))) ==> *final(self) == *old(self),
    {
        let proof = match &self.nft_vault {
            None => { return Some(Err(Error::InactiveComponent)); },
            Some(held) => NftProof {
                nft_id: NftId { resource: held.resource, local_id: clone_local_id(&held.local_id) },
                issued_at: now,
            },
        };
        if now >= self.end_timestamp {
            return Some(Err(Error::WindowExpired));
        }
        let fee = match self.fee_info {
            None => { return Some(Ok((proof, payment))); },
            Some(fee) => fee,
        };
        let paid = match payment {
            None => { return Some(Err(Error::PaymentRequired)); },
            Some(paid) => paid,
        };
        if !same_resource(paid.resource, fee.resource) {
            return Some(Err(Error::WrongPaymentAsset));
        }
        if !decimal_le(fee.amount, paid.amount) {
            return Some(Err(Error::InsufficientPayment));
        }
        let vault = self.fee_vault.unwrap();
        let collected = match decimal_checked_add(vault.amount, fee.amount) {
            None => { return None; },
            Some(collected) => collected,
        };
        let rest = decimal_sub(paid.amount, fee.amount);
        self.fee_vault = Some(Funds { resource: vault.resource, amount: collected });
        Some(Ok((proof, Some(Funds { resource: paid.resource, amount: rest }))))
    }

    /// Whether the vault has room for one more fee. A component that asks
    /// no fee always has.
    pub fn can_accrue(&self) -> (r: bool)
        ensures
            r == self@.can_accrue(),
    {
        match (self.fee_info, self.fee_vault) {
            (Some(fee), Some(vault)) => decimal_checked_add(vault.amount, fee.amount).is_some(),
            _ => true,
        }
    }

    /// Whether the asset is in custody.
    pub fn is_active(&self) -> (r: bool)
        ensures
            r == self@.active(),
    {
        self.nft_vault.is_some()
    }

    /// The resource of the owner's credential.
    pub fn owner_resource(&self) -> (r: ResourceAddress)
        ensures
            r == self@.owner,
    {
        self.owner_resource
    }

    /// The asset that the component was created for.
    pub fn nft_id(&self) -> (r: &NftId)
        ensures
            *r == self@.nft_id,
    {
        &self.nft_id
    }

    /// The fee asked for each proof, if any.
    pub fn fee_info(&self) -> (r: Option<FeeInfo>)
        ensures
            fee_of(r) == self@.fee,
    {
        self.fee_info
    }

    /// The fees collected and not yet withdrawn, if a fee is asked.
    pub fn collected_fees(&self) -> (r: Option<Funds>)
        ensures
            value_of(r) == self@.vault,
    {
        self.fee_vault
    }

    /// The second from which on no proof is issued.
    pub fn end_timestamp(&self) -> (r: i64)
        ensures
            r as int == self@.expiry,
    {
        self.end_timestamp
    }
}

} // verus!
