//! The ledger's value types, and the few operations on them that the
//! component needs. The verifier cannot look inside these types: each
//! function here states, without proof, what the ledger's own code does.

use vstd::prelude::*;
use scrypto::data::scrypto::model::NonFungibleLocalId;
use scrypto::math::CheckedAdd;
use scrypto::math::Decimal;
use scrypto::types::ResourceAddress;

verus! {

/// The ledger's fixed-point number: a signed 192-bit count of 10^-18 subunits.
#[verifier::external_type_specification]
#[verifier::external_body]
pub struct ExDecimal(Decimal);

/// The address of a resource (an asset kind) on the ledger.
#[verifier::external_type_specification]
#[verifier::external_body]
pub struct ExResourceAddress(ResourceAddress);

/// The identifier of one non-fungible within its resource.
#[verifier::external_type_specification]
#[verifier::external_body]
pub struct ExNonFungibleLocalId(NonFungibleLocalId);

/// The number of 10^-18 subunits that a decimal stands for.
pub uninterp spec fn subunits(d: Decimal) -> int;

/// Whether an address is that of a fungible resource.
pub uninterp spec fn fungible(a: ResourceAddress) -> bool;

/// The largest count of subunits that a decimal can hold, `2^191 - 1`.
pub open spec fn decimal_max() -> int {
    0x8000_0000_0000_0000_0000_0000_0000_0000int * 0x1_0000_0000_0000_0000int - 1
}

/// The smallest count of subunits that a decimal can hold, `-2^191`.
pub open spec fn decimal_min() -> int {
    -decimal_max() - 1
}

/// The count of subunits in one whole unit.
pub open spec fn one_unit() -> int {
    1_000_000_000_000_000_000
}

/// `Decimal::ZERO`: the decimal of no subunits.
#[verifier::external_body]
pub(crate) fn decimal_zero() -> (r: Decimal)
    ensures
        subunits(r) == 0,
{
    Decimal::ZERO
}

/// `Decimal::ONE`: the decimal of one whole unit, 10^18 subunits.
#[verifier::external_body]
pub(crate) fn decimal_one() -> (r: Decimal)
    ensures
        subunits(r) == one_unit(),
{
    Decimal::ONE
}

/// `Decimal::is_positive`: whether the count of subunits is above zero.
#[verifier::external_body]
pub(crate) fn decimal_is_positive(d: Decimal) -> (r: bool)
    ensures
        r == (subunits(d) > 0),
{
    d.is_positive()
}

/// `Decimal::is_negative`: whether the count of subunits is below zero.
#[verifier::external_body]
pub(crate) fn decimal_is_negative(d: Decimal) -> (r: bool)
    ensures
        r == (subunits(d) < 0),
{
    d.is_negative()
}

/// The order of `Decimal`, which is the numeric order of the subunit counts.
#[verifier::external_body]
pub(crate) fn decimal_le(a: Decimal, b: Decimal) -> (r: bool)
    ensures
        r == (subunits(a) <= subunits(b)),
{
    a <= b
}

/// `Decimal::checked_add`: the sum, wherever it fits the 192 bits, and
/// `None` wherever it does not.
#[verifier::external_body]
pub(crate) fn decimal_checked_add(a: Decimal, b: Decimal) -> (r: Option<Decimal>)
    ensures
        r is Some <==> decimal_min() <= subunits(a) + subunits(b) <= decimal_max(),
        r is Some ==> subunits(r->Some_0) == subunits(a) + subunits(b),
{
    a.checked_add(b)
}

/// `Decimal`'s subtraction, which panics on overflow. Taking a smaller
/// quantity from a larger one cannot overflow, and only that is admitted.
#[verifier::external_body]
pub(crate) fn decimal_sub(a: Decimal, b: Decimal) -> (r: Decimal)
    requires
        0 <= subunits(b) <= subunits(a),
    ensures
        subunits(r) == subunits(a) - subunits(b),
{
    a - b
}

/// Equality of `ResourceAddress`: two addresses are equal exactly when they
/// are the same value.
#[verifier::external_body]
pub(crate) fn same_resource(a: ResourceAddress, b: ResourceAddress) -> (r: bool)
    ensures
        r == (a == b),
{
    a == b
}

/// `ResourceAddress::is_fungible`: the address's entity type says whether
/// the resource is fungible.
#[verifier::external_body]
pub(crate) fn resource_is_fungible(a: ResourceAddress) -> (r: bool)
    ensures
        r == fungible(a),
{
    a.is_fungible()
}

/// `NonFungibleLocalId::clone`: a copy equal to the identifier it was made from.
#[verifier::external_body]
pub(crate) fn clone_local_id(id: &NonFungibleLocalId) -> (r: NonFungibleLocalId)
    ensures
        r == *id,
{
    id.clone()
}

} // verus!
