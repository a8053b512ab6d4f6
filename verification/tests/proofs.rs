use schemas::hard_relation::dlog_gen;
use schemas::nizk::NIZK;
use schemas::pok_schnorr_signature::{pok_R, PoKSchnorrSignature};
use schemas::por_schnorr_signature::{por_crs_gen, por_prove, por_verify, por_R};
use schemas::schnorr_signatures::{schnorr_sign, SchnorrSignatureScheme};
use schemas::sigma_proof::DLogSigmaProof;
use schemas::signature_scheme::SignatureScheme;

const MSG: &str = "Lorem ipsum dolor sit amet, consectetur adipiscing elit, sed do eiusmod tempor incididunt ut labore et dolore magna aliqua";

#[test]
fn dlog_sigma_completeness() {
    let crs = <DLogSigmaProof as NIZK>::crs_gen();
    let (w, x) = dlog_gen(&crs);
    let p = <DLogSigmaProof as NIZK>::prove(&crs, &x, &w);
    assert!(<DLogSigmaProof as NIZK>::verify(&crs, &x, &p));
}

#[test]
fn dlog_sigma_rejects_forgeries() {
    let crs = <DLogSigmaProof as NIZK>::crs_gen();
    for _ in 0..32 {
        let (_w, x) = dlog_gen(&crs);
        let (fake_w, _) = dlog_gen(&crs);
        let p = <DLogSigmaProof as NIZK>::prove(&crs, &x, &fake_w);
        assert!(!<DLogSigmaProof as NIZK>::verify(&crs, &x, &p));
    }
}

fn pok_instance() -> (
    schemas::pok_schnorr_signature::Witness,
    schemas::pok_schnorr_signature::Statement,
) {
    let g = k256::ProjectivePoint::GENERATOR;
    let (sk_n, pk_n) = <SchnorrSignatureScheme as SignatureScheme>::gen();
    let sig = schnorr_sign(&sk_n, MSG);
    let (w, x) = dlog_gen(&g);
    let gs = g * sig.sig;
    let ct = w + sig.sig;
    let witness = schemas::pok_schnorr_signature::Witness::new(sig.sig, w);
    let statement = schemas::pok_schnorr_signature::Statement::new(
        gs,
        x,
        pk_n,
        sig.challenge,
        ct,
        MSG.to_string(),
    );
    (witness, statement)
}

#[test]
fn pok_relation_holds_for_honest_instance() {
    let (witness, statement) = pok_instance();
    assert!(pok_R(&witness, &statement));
}

#[test]
fn pok_completeness() {
    let (witness, statement) = pok_instance();
    let p = <PoKSchnorrSignature as NIZK>::prove(&(), &statement, &witness);
    assert!(<PoKSchnorrSignature as NIZK>::verify(&(), &statement, &p));
}

#[test]
fn pok_rejects_forged_witness() {
    let (_witness, statement) = pok_instance();
    let g = k256::ProjectivePoint::GENERATOR;
    for _ in 0..16 {
        let (fake_sig, _) = dlog_gen(&g);
        let (fake_w, _) = dlog_gen(&g);
        let fake = schemas::pok_schnorr_signature::Witness::new(fake_sig, fake_w);
        let p = <PoKSchnorrSignature as NIZK>::prove(&(), &statement, &fake);
        assert!(!<PoKSchnorrSignature as NIZK>::verify(&(), &statement, &p));
    }
}

fn notary_parts() -> (k256::ProjectivePoint, schemas::schnorr_signatures::SchnorrSignature) {
    let (sk_n, pk_n) = <SchnorrSignatureScheme as SignatureScheme>::gen();
    let sig = schnorr_sign(&sk_n, MSG);
    (pk_n, sig)
}

#[test]
fn or_proof_branch_one_verifies() {
    let crs = por_crs_gen().unwrap();
    let (pk_n, sig) = notary_parts();
    let (w, x) = dlog_gen(&crs.g);
    let gs = crs.g * sig.sig;
    let witness = schemas::por_schnorr_signature::Witness::new(sig.sig, w);
    let statement = schemas::por_schnorr_signature::Statement::new(
        x,
        pk_n,
        gs,
        sig.challenge,
        MSG.to_string(),
    );
    assert!(por_R(&crs, &witness, &statement));
    let p = por_prove(&crs, &statement, &witness);
    assert!(por_verify(&crs, &statement, &p));
}

#[test]
fn or_proof_branch_two_verifies() {
    let crs = por_crs_gen().unwrap();
    let (pk_n, sig) = notary_parts();
    // The witness opens x with respect to h, not g: the prover simulates
    // the signature branch.
    let (w, _) = dlog_gen(&crs.g);
    let x = crs.h * w;
    let gs = crs.g * sig.sig;
    let witness = schemas::por_schnorr_signature::Witness::new(sig.sig, w);
    let statement = schemas::por_schnorr_signature::Statement::new(
        x,
        pk_n,
        gs,
        sig.challenge,
        MSG.to_string(),
    );
    assert!(por_R(&crs, &witness, &statement));
    let p = por_prove(&crs, &statement, &witness);
    assert!(por_verify(&crs, &statement, &p));
}

#[test]
fn or_proof_transcript_shapes_agree_across_branches() {
    // Both branch shapes yield transcripts of the same length that both
    // verify; nothing in the byte lengths reveals the proven branch.
    let crs = por_crs_gen().unwrap();
    let (pk_n, sig) = notary_parts();
    let (w1, x1) = dlog_gen(&crs.g);
    let gs = crs.g * sig.sig;
    let w_b1 = schemas::por_schnorr_signature::Witness::new(sig.sig, w1);
    let st_b1 = schemas::por_schnorr_signature::Statement::new(
        x1,
        pk_n,
        gs,
        sig.challenge,
        MSG.to_string(),
    );
    let p1 = por_prove(&crs, &st_b1, &w_b1);
    let (w2, _) = dlog_gen(&crs.g);
    let x2 = crs.h * w2;
    let w_b2 = schemas::por_schnorr_signature::Witness::new(sig.sig, w2);
    let st_b2 = schemas::por_schnorr_signature::Statement::new(
        x2,
        pk_n,
        gs,
        sig.challenge,
        MSG.to_string(),
    );
    let p2 = por_prove(&crs, &st_b2, &w_b2);
    assert!(por_verify(&crs, &st_b1, &p1));
    assert!(por_verify(&crs, &st_b2, &p2));
    assert_eq!(p1.to_byte_vector().len(), p2.to_byte_vector().len());
}

#[test]
fn or_proof_rejects_forged_witness() {
    let crs = por_crs_gen().unwrap();
    let (pk_n, sig) = notary_parts();
    for _ in 0..16 {
        let (_w, x) = dlog_gen(&crs.g);
        let (fake_w, _) = dlog_gen(&crs.g);
        let gs = crs.g * sig.sig;
        let fake = schemas::por_schnorr_signature::Witness::new(sig.sig, fake_w);
        let statement = schemas::por_schnorr_signature::Statement::new(
            x,
            pk_n,
            gs,
            sig.challenge,
            MSG.to_string(),
        );
        let p = por_prove(&crs, &statement, &fake);
        assert!(!por_verify(&crs, &statement, &p));
    }
}

#[test]
fn or_proof_rejects_tampered_proof() {
    let crs = por_crs_gen().unwrap();
    let (pk_n, sig) = notary_parts();
    let (w, x) = dlog_gen(&crs.g);
    let gs = crs.g * sig.sig;
    let witness = schemas::por_schnorr_signature::Witness::new(sig.sig, w);
    let statement = schemas::por_schnorr_signature::Statement::new(
        x,
        pk_n,
        gs,
        sig.challenge,
        MSG.to_string(),
    );
    let mut p = por_prove(&crs, &statement, &witness);
    p.r.0 = p.r.0 + k256::Scalar::ONE;
    assert!(!por_verify(&crs, &statement, &p));
}

#[test]
fn or_statement_and_proof_encoding_lengths() {
    let crs = por_crs_gen().unwrap();
    let (pk_n, sig) = notary_parts();
    let (w, x) = dlog_gen(&crs.g);
    let gs = crs.g * sig.sig;
    let witness = schemas::por_schnorr_signature::Witness::new(sig.sig, w);
    let statement = schemas::por_schnorr_signature::Statement::new(
        x,
        pk_n,
        gs,
        sig.challenge,
        MSG.to_string(),
    );
    let p = por_prove(&crs, &statement, &witness);
    assert_eq!(statement.to_byte_vector().len(), 3 * 33 + 32 + MSG.len());
    assert_eq!(p.to_byte_vector().len(), 259);
}
