use schemas::hard_relation::dlog_gen;
use schemas::schnorr_adaptor_signatures::{
    adaptor_adapt, adaptor_extract, adaptor_gen, adaptor_pre_sign, adaptor_pre_verify,
    adaptor_sign, adaptor_verify,
};
use schemas::schnorr_signatures::{schnorr_sign, schnorr_verify};

const TX_PAY: &str = "(alpha, (pk_b_2 && pk_s) || (pk_b_2 + t)) -> (alpha, pk_s_2)";

#[test]
fn schnorr_sign_verify_round_trip() {
    let (sk, pk) = adaptor_gen();
    let sig = schnorr_sign(&sk, "a message");
    assert!(schnorr_verify(&pk, "a message", &sig));
    assert!(!schnorr_verify(&pk, "another message", &sig));
    let (_sk2, pk2) = adaptor_gen();
    assert!(!schnorr_verify(&pk2, "a message", &sig));
}

#[test]
fn plain_adaptor_sign_is_a_schnorr_signature() {
    let (sk, pk) = adaptor_gen();
    let sig = adaptor_sign(&sk, "a message");
    assert!(schnorr_verify(&pk, "a message", &sig));
}

#[test]
fn adaptor_round_trip() {
    let g = k256::ProjectivePoint::GENERATOR;
    let (sk, pk) = adaptor_gen();
    let (w, x) = dlog_gen(&g);
    let presig = adaptor_pre_sign(&sk, TX_PAY, &x);
    assert!(adaptor_pre_verify(&pk, TX_PAY, &x, &presig));
    let sig = adaptor_adapt(&pk, &presig, &w);
    assert!(adaptor_verify(&pk, TX_PAY, &sig));
    let extracted = adaptor_extract(&pk, &presig, &sig).unwrap();
    assert!(g * extracted == x);
}

#[test]
fn pre_verify_rejects_tampered_statement() {
    let g = k256::ProjectivePoint::GENERATOR;
    let (sk, pk) = adaptor_gen();
    let (_w, x) = dlog_gen(&g);
    let presig = adaptor_pre_sign(&sk, TX_PAY, &x);
    let tampered = x + g;
    assert!(!adaptor_pre_verify(&pk, TX_PAY, &tampered, &presig));
}

#[test]
fn pre_verify_rejects_wrong_message() {
    let g = k256::ProjectivePoint::GENERATOR;
    let (sk, pk) = adaptor_gen();
    let (_w, x) = dlog_gen(&g);
    let presig = adaptor_pre_sign(&sk, TX_PAY, &x);
    assert!(!adaptor_pre_verify(&pk, "another transaction", &x, &presig));
}

#[test]
fn extract_on_unrelated_pair_yields_no_witness_of_x() {
    let g = k256::ProjectivePoint::GENERATOR;
    let (sk, pk) = adaptor_gen();
    let (_w1, x1) = dlog_gen(&g);
    let (w2, x2) = dlog_gen(&g);
    let presig_a = adaptor_pre_sign(&sk, TX_PAY, &x1);
    let presig_b = adaptor_pre_sign(&sk, TX_PAY, &x2);
    let sig_b = adaptor_adapt(&pk, &presig_b, &w2);
    match adaptor_extract(&pk, &presig_a, &sig_b) {
        None => (),
        Some(candidate) => {
            assert!(g * candidate != x1);
        }
    }
}

#[test]
fn extract_without_adaptation_is_absent() {
    let g = k256::ProjectivePoint::GENERATOR;
    let (sk, pk) = adaptor_gen();
    let (_w, x) = dlog_gen(&g);
    let presig = adaptor_pre_sign(&sk, TX_PAY, &x);
    assert!(adaptor_extract(&pk, &presig, &presig).is_none());
}
