use flash_proof::types::Error;
use flash_proof::types::FeeInfo;
use flash_proof::types::Funds;
use flash_proof::types::NftBucket;
use flash_proof::types::NftId;
use flash_proof::types::NftProof;
use flash_proof::FlashProof;
use scrypto::constants::XRD;
use scrypto::data::scrypto::model::NonFungibleLocalId;
use scrypto::math::Decimal;
use scrypto::time::Instant;
use scrypto::types::ResourceAddress;

const FUNGIBLE: u8 = 93;
const NON_FUNGIBLE: u8 = 154;

fn address(entity: u8, tag: u8) -> ResourceAddress {
    let mut raw = [tag; 30];
    raw[0] = entity;
    ResourceAddress::new_or_panic(raw)
}

fn dec(n: i64) -> Decimal {
    Decimal::from(n)
}

fn current_time() -> Instant {
    Instant::new(1_700_000_000)
}

fn fake_nft() -> (NftBucket, NftId) {
    let resource = address(NON_FUNGIBLE, 7);
    let local_id = NonFungibleLocalId::ruid([42; 32]);
    (
        NftBucket { resource, local_ids: vec![local_id.clone()] },
        NftId { resource, local_id },
    )
}

/// A component, its owner badge and the identity of the asset it holds.
fn create(fee_info: Option<FeeInfo>, days_in_future: i64) -> (FlashProof, Funds, NftId) {
    let timestamp = current_time().add_days(days_in_future).unwrap();
    let (nft, global_id) = fake_nft();
    let (component, owner_badge) = FlashProof::instantiate(
        nft,
        fee_info,
        timestamp.seconds_since_unix_epoch,
        current_time().seconds_since_unix_epoch,
        address(FUNGIBLE, 9),
    )
    .unwrap();
    (component, owner_badge, global_id)
}

fn create_environment_with_fee(
    fee_resource: ResourceAddress,
    fee_amount: Decimal,
    days_in_future: i64,
) -> (FlashProof, Funds, NftId) {
    create(Some(FeeInfo { resource: fee_resource, amount: fee_amount }), days_in_future)
}

fn create_environment_without_fee(days_in_future: i64) -> (FlashProof, Funds, NftId) {
    create(None, days_in_future)
}

fn bucket(resource: ResourceAddress, amount: Decimal) -> Funds {
    Funds { resource, amount }
}

/// Asks for a proof at the given time, having seen that the vault has room.
fn get_nft_proof(
    component: &mut FlashProof,
    payment: Option<Funds>,
    at: Instant,
) -> Result<(NftProof, Option<Funds>), Error> {
    assert!(component.can_accrue());
    component.get_nft_proof(payment, at.seconds_since_unix_epoch)
}

#[test]
fn can_withdraw_nft() {
    let (mut component, owner_badge, global_id) = create_environment_with_fee(XRD, dec(50), 30);
    assert!(owner_badge.amount == Decimal::ONE);

    let returned_nft = component.withdraw_nft(Some(owner_badge.resource)).unwrap();

    assert!(returned_nft.local_ids.len() == 1, "Got back another amount than 1 NFT");
    assert!(
        returned_nft.resource == global_id.resource,
        "Got back an NFT with a different resource address"
    );
    assert!(
        *returned_nft.local_ids.first().unwrap() == global_id.local_id,
        "Got back an NFT with a different NonFungibleLocalId"
    );
}

#[test]
fn can_get_proof_within_timeframe() {
    let (mut component, _, global_id) = create_environment_with_fee(XRD, dec(50), 30);
    let payment = bucket(XRD, dec(50));

    let (proof, remainder) = get_nft_proof(&mut component, Some(payment), current_time()).unwrap();

    assert!(remainder.unwrap().amount == dec(0), "Got back more than expected");
    assert!(proof.nft_id.resource == global_id.resource, "Got back some weird-ass NFT");
    assert!(proof.nft_id.local_id == global_id.local_id, "Got back some weird-ass NFT");
}

#[test]
fn can_get_proof_within_timeframe_if_no_fee_required() {
    let (mut component, _, global_id) = create_environment_without_fee(30);

    let (proof, _) = get_nft_proof(&mut component, None, current_time()).unwrap();

    assert!(proof.nft_id.resource == global_id.resource, "Got back some weird-ass NFT");
    assert!(proof.nft_id.local_id == global_id.local_id, "Got back some weird-ass NFT");
}

#[test]
fn payment_is_returned_from_no_fee_component() {
    let (mut component, _, _) = create_environment_without_fee(30);
    let payment = bucket(XRD, dec(50));

    let (_, remainder) = get_nft_proof(&mut component, Some(payment), current_time()).unwrap();

    assert!(remainder.unwrap().amount == dec(50), "Did not get back the expected amount");
}

#[test]
fn can_withdraw_fee() {
    let (mut component, owner_badge, _) = create_environment_with_fee(XRD, dec(50), 30);
    let payment = bucket(XRD, dec(50));

    let _ = get_nft_proof(&mut component, Some(payment), current_time()).unwrap();
    let fee = component.withdraw_fees(Some(owner_badge.resource)).unwrap();

    assert!(fee.amount == dec(50), "Got back wrong fee amount");
    assert!(fee.resource == XRD);
}

#[test]
fn cannot_withdraw_fee_if_no_fee_is_asked() {
    let (mut component, owner_badge, _) = create_environment_without_fee(30);
    let payment = bucket(XRD, dec(50));

    let _ = get_nft_proof(&mut component, Some(payment), current_time()).unwrap();
    let result = component.withdraw_fees(Some(owner_badge.resource));

    assert!(result.is_err(), "Was unexpectedly able to withdraw a fee");
    assert!(matches!(result, Err(Error::NoFeePolicy)));
}

#[test]
fn can_update_fee() {
    let (mut component, owner_badge, _) = create_environment_with_fee(XRD, dec(50), 30);

    component.update_fee(dec(100), Some(owner_badge.resource)).unwrap();

    let new_fee = component.fee_info().unwrap().amount;
    assert!(new_fee == dec(100), "Fee was not correctly updated");
}

#[test]
fn can_update_fee_to_0_and_generate_proof() {
    let (mut component, owner_badge, _) = create_environment_with_fee(XRD, dec(50), 30);
    let payment = bucket(XRD, dec(50));

    component.update_fee(dec(0), Some(owner_badge.resource)).unwrap();
    let (_, remainder) = get_nft_proof(&mut component, Some(payment), current_time()).unwrap();

    assert!(remainder.unwrap().amount == dec(50), "Did not get payment back completely");
}

#[test]
fn can_update_fee_to_0_and_send_empty_bucket() {
    let (mut component, owner_badge, _) = create_environment_with_fee(XRD, dec(50), 30);
    let payment = bucket(XRD, dec(0));

    component.update_fee(dec(0), Some(owner_badge.resource)).unwrap();
    let (_, remainder) = get_nft_proof(&mut component, Some(payment), current_time()).unwrap();

    assert!(remainder.unwrap().amount == dec(0), "Did not get back empty bucket");
}

#[test]
fn cannot_update_fee_if_no_fee_is_asked() {
    let (mut component, owner_badge, _) = create_environment_without_fee(30);

    let result = component.update_fee(dec(50), Some(owner_badge.resource));

    assert!(result.is_err(), "Was unexpectedly able to update fee");
    assert!(result == Err(Error::NoFeePolicy));
}

#[test]
fn can_update_stop_timestamp() {
    let (mut component, owner_badge, _) = create_environment_with_fee(XRD, dec(50), 30);
    let future_timestamp = current_time().add_days(60).unwrap().add_seconds(1).unwrap();

    component
        .update_end_timestamp(
            future_timestamp.seconds_since_unix_epoch,
            current_time().seconds_since_unix_epoch,
            Some(owner_badge.resource),
        )
        .unwrap();

    let new_stop_timestamp = Instant::new(component.end_timestamp());
    assert!(new_stop_timestamp == future_timestamp, "Timestamp was not properly updated!");
}

#[test]
fn cannot_get_proof_with_wrong_payment() {
    let (mut component, _, _) = create_environment_with_fee(XRD, dec(50), 30);
    let random_resource = bucket(address(FUNGIBLE, 3), dec(500));
    let too_little_xrd = bucket(XRD, dec(30));
    let not_xrd = bucket(random_resource.resource, dec(50));

    let result_too_little_xrd = get_nft_proof(&mut component, Some(too_little_xrd), current_time());
    let result_not_xrd = get_nft_proof(&mut component, Some(not_xrd), current_time());

    assert!(
        result_too_little_xrd.is_err(),
        "Did not expect to be able to get proof while paying too little"
    );
    assert!(
        result_not_xrd.is_err(),
        "Did not expect to be able to get proof while not paying with XRD"
    );
    assert!(matches!(result_too_little_xrd, Err(Error::InsufficientPayment)));
    assert!(matches!(result_not_xrd, Err(Error::WrongPaymentAsset)));
}

#[test]
fn cannot_get_proof_without_payment_if_payment_required() {
    let (mut component, _, _) = create_environment_with_fee(XRD, dec(50), 30);

    let result = get_nft_proof(&mut component, None, current_time());

    assert!(result.is_err(), "Got proof, even though no payment was provided");
    assert!(matches!(result, Err(Error::PaymentRequired)));
}

#[test]
fn cannot_get_proof_outside_timeframe() {
    let (mut component, _, _) = create_environment_with_fee(XRD, dec(50), 30);
    let payment = bucket(XRD, dec(50));
    let future_timestamp = current_time().add_days(30).unwrap().add_seconds(1).unwrap();

    let result = get_nft_proof(&mut component, Some(payment), future_timestamp);

    assert!(result.is_err(), "Was able to get proof after timeframe!");
    assert!(matches!(result, Err(Error::WindowExpired)));
}
