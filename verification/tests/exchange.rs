use schemas::error::Error;
use schemas::hard_relation::dlog_gen;
use schemas::por_schnorr_signature::{por_crs_gen, por_verify};
use schemas::schnorr_adaptor_signatures::{adaptor_gen, adaptor_pre_sign, adaptor_verify};
use schemas::schnorr_signatures::{schnorr_sign, schnorr_verify};
use schemas::selling_signature::{
    buyer_extract, buyer_lock_and_presign, seller_claim, seller_offer, selling_signature,
};
use schemas::utils::point_to_byte_vector;

const MSG: &str = "Lorem ipsum dolor sit amet, consectetur adipiscing elit, sed do eiusmod tempor incididunt ut labore et dolore magna aliqua";
const TX_LOCK: &str = "(alpha, pk_b_1) -> (alpha, (pk_b_2 && pk_s) || (pk_b_2 + t))";
const TX_PAY: &str = "(alpha, (pk_b_2 && pk_s) || (pk_b_2 + t)) -> (alpha, pk_s_2)";

#[test]
fn end_to_end_selling_signature() {
    let run = selling_signature(MSG, TX_LOCK, TX_PAY).unwrap();
    let g = k256::ProjectivePoint::GENERATOR;

    // The buyer's extracted witness opens the statement the seller sold,
    // bit for bit.
    let opened = g * run.extracted;
    assert!(opened == run.statement.x);
    assert_eq!(
        point_to_byte_vector(&opened),
        point_to_byte_vector(&run.statement.x)
    );

    // Every artifact of the run verifies under its key.
    assert!(schnorr_verify(&run.pk_notary, MSG, &run.notary_signature));
    assert!(por_verify(&run.crs, &run.statement, &run.or_proof));
    assert!(schnorr_verify(&run.pk_b1, TX_LOCK, &run.lock_signature));
    assert!(adaptor_verify(&run.pk_b2, TX_PAY, &run.pay_signature));
}

#[test]
fn role_steps_compose() {
    let crs = por_crs_gen().unwrap();
    let (sk_b1, pk_b1) = adaptor_gen();
    let (sk_b2, pk_b2) = adaptor_gen();
    let (sk_notary, pk_notary) = adaptor_gen();
    let notary_sig = schnorr_sign(&sk_notary, MSG);

    let (w, statement, or_proof) = seller_offer(&crs, &pk_notary, &notary_sig, MSG);
    let (lock_signature, pre_signature) = buyer_lock_and_presign(
        &crs,
        &statement,
        &or_proof,
        &sk_b1,
        &pk_b1,
        &sk_b2,
        TX_LOCK,
        TX_PAY,
    )
    .unwrap();
    assert!(schnorr_verify(&pk_b1, TX_LOCK, &lock_signature));
    let pay_signature = seller_claim(&pk_b2, TX_PAY, &statement.x, &pre_signature, &w).unwrap();
    let extracted = buyer_extract(&pk_b2, &pre_signature, &pay_signature).unwrap();
    assert!(k256::ProjectivePoint::GENERATOR * extracted == statement.x);
}

#[test]
fn buyer_aborts_on_corrupted_proof() {
    let crs = por_crs_gen().unwrap();
    let (sk_b1, pk_b1) = adaptor_gen();
    let (sk_b2, _pk_b2) = adaptor_gen();
    let (sk_notary, pk_notary) = adaptor_gen();
    let notary_sig = schnorr_sign(&sk_notary, MSG);

    let (_w, statement, mut or_proof) = seller_offer(&crs, &pk_notary, &notary_sig, MSG);
    or_proof.r.0 = or_proof.r.0 + k256::Scalar::ONE;
    let r = buyer_lock_and_presign(
        &crs,
        &statement,
        &or_proof,
        &sk_b1,
        &pk_b1,
        &sk_b2,
        TX_LOCK,
        TX_PAY,
    );
    assert!(matches!(r, Err(Error::VerificationFailure)));
}

#[test]
fn seller_aborts_on_tampered_presignature() {
    let g = k256::ProjectivePoint::GENERATOR;
    let (sk_b2, pk_b2) = adaptor_gen();
    let (w, x) = dlog_gen(&g);
    let mut presig = adaptor_pre_sign(&sk_b2, TX_PAY, &x);
    presig.sig = presig.sig + k256::Scalar::ONE;
    let r = seller_claim(&pk_b2, TX_PAY, &x, &presig, &w);
    assert!(matches!(r, Err(Error::VerificationFailure)));
}

#[test]
fn buyer_extract_fails_without_adaptation() {
    let g = k256::ProjectivePoint::GENERATOR;
    let (sk_b2, pk_b2) = adaptor_gen();
    let (_w, x) = dlog_gen(&g);
    let presig = adaptor_pre_sign(&sk_b2, TX_PAY, &x);
    let r = buyer_extract(&pk_b2, &presig, &presig);
    assert!(matches!(r, Err(Error::ExtractionFailure)));
}
