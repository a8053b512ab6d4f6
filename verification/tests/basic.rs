use schemas::hard_relation::{dlog_gen, dlog_r, dlog_statement};
use schemas::elgamal::{elgamal_dec, elgamal_enc, elgamal_gen};
use schemas::one_time_pad::{otp_dec, otp_enc};
use schemas::por_schnorr_signature::por_crs_gen;
use schemas::utils::{point_to_byte_vector, scalar_to_byte_vector};

#[test]
fn it_works() {
    let result = schemas::add(2, 2);
    assert_eq!(result, 4);
}

#[test]
fn dlog_statement_matches_group_multiplication() {
    let g = k256::ProjectivePoint::GENERATOR;
    let w = k256::Scalar::from(123456789u64);
    let x = dlog_statement(&g, &w);
    assert!(x == g * w);
}

#[test]
fn dlog_relation_accepts_sampled_instances() {
    let g = k256::ProjectivePoint::GENERATOR;
    let (w, x) = dlog_gen(&g);
    assert!(dlog_r(&g, &w, &x));
}

#[test]
fn dlog_relation_rejects_wrong_witness() {
    let g = k256::ProjectivePoint::GENERATOR;
    let (w, x) = dlog_gen(&g);
    let wrong = w + k256::Scalar::ONE;
    assert!(!dlog_r(&g, &wrong, &x));
}

#[test]
fn generator_encoding_is_x_coordinate_and_parity() {
    let g = k256::ProjectivePoint::GENERATOR;
    let v = point_to_byte_vector(&g);
    let expected_x: [u8; 32] = [
        0x79, 0xBE, 0x66, 0x7E, 0xF9, 0xDC, 0xBB, 0xAC, 0x55, 0xA0, 0x62, 0x95, 0xCE, 0x87,
        0x0B, 0x07, 0x02, 0x9B, 0xFC, 0xDB, 0x2D, 0xCE, 0x28, 0xD9, 0x59, 0xF2, 0x81, 0x5B,
        0x16, 0xF8, 0x17, 0x98,
    ];
    assert_eq!(v.len(), 33);
    assert_eq!(&v[..32], &expected_x);
    assert_eq!(v[32], 0);
}

#[test]
fn scalar_encoding_is_big_endian_value() {
    let s = k256::Scalar::from(5u64);
    let v = scalar_to_byte_vector(&s);
    assert_eq!(v.len(), 32);
    for byte in &v[..31] {
        assert_eq!(*byte, 0);
    }
    assert_eq!(v[31], 5);
}

#[test]
fn one_time_pad_round_trip() {
    let key = k256::Scalar::from(11u64);
    let msg = k256::Scalar::from(7u64);
    let ct = otp_enc(&key, &msg);
    assert!(ct == k256::Scalar::from(18u64));
    let back = otp_dec(&key, &ct);
    assert!(back == msg);
}

#[test]
fn elgamal_round_trip() {
    let (sk, pk) = elgamal_gen();
    let msg = k256::ProjectivePoint::GENERATOR * k256::Scalar::from(42u64);
    let (ct, _y) = elgamal_enc(&pk, &msg);
    let back = elgamal_dec(&sk, &ct);
    assert!(back == msg);
}

#[test]
fn crs_generation_yields_generator_and_nonidentity() {
    let crs = por_crs_gen().unwrap();
    assert!(crs.g == k256::ProjectivePoint::GENERATOR);
    assert!(crs.h != k256::ProjectivePoint::IDENTITY);
}

#[test]
fn signature_encoding_length() {
    let (sk, _pk) = schemas::schnorr_adaptor_signatures::adaptor_gen();
    let sig = schemas::schnorr_signatures::schnorr_sign(&sk, "m");
    assert_eq!(sig.to_byte_vector().len(), 64);
}
