use claim_registry::{
    decide_create, decide_revoke, decide_transfer, ensure_admissible, ensure_fits, ensure_signed,
    Config, Decision, Error, Origin,
};

#[test]
fn signed_origin_yields_its_account() {
    assert_eq!(ensure_signed(Origin::signed(17)), Ok(17));
    assert_eq!(ensure_signed(Origin::Signed(0)), Ok(0));
}

#[test]
fn other_origins_are_unauthenticated() {
    assert_eq!(ensure_signed(Origin::Root), Err(Error::Unauthenticated));
    assert_eq!(ensure_signed(Origin::Unsigned), Err(Error::Unauthenticated));
}

#[test]
fn signed_builds_the_signed_variant() {
    assert_eq!(Origin::signed(3), Origin::Signed(3));
    assert_ne!(Origin::signed(3), Origin::Signed(4));
}

#[test]
fn a_claim_fits_up_to_the_bound() {
    let config = Config { max_claim_length: 2 };
    assert_eq!(ensure_fits(&config, 0), Ok(()));
    assert_eq!(ensure_fits(&config, 2), Ok(()));
    assert_eq!(ensure_fits(&config, 3), Err(Error::ClaimTooLong));
    assert_eq!(ensure_fits(&config, usize::MAX), Err(Error::ClaimTooLong));
}

#[test]
fn the_greatest_bound_admits_its_own_length() {
    let config = Config { max_claim_length: u32::MAX };
    assert_eq!(ensure_fits(&config, 4_294_967_295), Ok(()));
}

#[test]
fn a_signed_call_with_a_fitting_claim_is_admissible() {
    let config = Config { max_claim_length: 2 };
    assert_eq!(ensure_admissible(&config, Origin::signed(8), 2), Ok(8));
    assert_eq!(ensure_admissible(&config, Origin::signed(8), 0), Ok(8));
}

#[test]
fn the_signature_is_looked_at_before_the_length() {
    let config = Config { max_claim_length: 2 };
    assert_eq!(ensure_admissible(&config, Origin::Unsigned, 3), Err(Error::Unauthenticated));
    assert_eq!(ensure_admissible(&config, Origin::Root, 1), Err(Error::Unauthenticated));
    assert_eq!(ensure_admissible(&config, Origin::signed(8), 3), Err(Error::ClaimTooLong));
}

#[test]
fn create_is_decided_for_the_caller() {
    assert_eq!(decide_create(1, None, 5), Ok(Decision { who: 1, next: Some((1, 5)) }));
}

#[test]
fn create_is_turned_down_where_a_registration_exists() {
    assert_eq!(decide_create(1, Some((1, 0)), 5), Err(Error::ClaimAlreadyExists));
    assert_eq!(decide_create(2, Some((1, 0)), 5), Err(Error::ClaimAlreadyExists));
}

#[test]
fn revoke_is_decided_for_the_owner() {
    assert_eq!(decide_revoke(1, Some((1, 4))), Ok(Decision { who: 1, next: None }));
}

#[test]
fn revoke_is_turned_down_for_others_and_for_missing_claims() {
    assert_eq!(decide_revoke(1, None), Err(Error::ClaimNotFound));
    assert_eq!(decide_revoke(1, Some((2, 0))), Err(Error::NotClaimOwner));
}

#[test]
fn transfer_is_decided_for_the_owner() {
    assert_eq!(
        decide_transfer(1, 2, Some((1, 4)), 6),
        Ok(Decision { who: 1, next: Some((2, 6)) })
    );
}

#[test]
fn transfer_is_turned_down_for_others_and_for_missing_claims() {
    assert_eq!(decide_transfer(1, 2, None, 6), Err(Error::ClaimNotFound));
    assert_eq!(decide_transfer(1, 2, Some((2, 0)), 6), Err(Error::NotClaimOwner));
    assert_eq!(decide_transfer(2, 2, Some((1, 0)), 6), Err(Error::NotClaimOwner));
}
