//! One-time-pad encryption over the scalar field: the ciphertext is the
//! message shifted by the key.

use vstd::prelude::*;
use crate::field::{fadd, fsub, in_field, lemma_fadd_then_fsub};
use crate::group::{scalar_add, scalar_sub, scalar_val};
use crate::symmetric_encryption::SymmetricEncryptionScheme;

verus! {

/// The one-time pad over scalars.
pub struct OneTimePad;

/// Encrypt: the message shifted by the key.
pub fn otp_enc(key: &k256::Scalar, msg: &k256::Scalar) -> (ct: k256::Scalar)
    ensures
        scalar_val(ct) == fadd(scalar_val(*msg), scalar_val(*key)),
{
    scalar_add(msg, key)
}

/// Decrypt: the shift undone.
pub fn otp_dec(key: &k256::Scalar, ct: &k256::Scalar) -> (msg: k256::Scalar)
    ensures
        scalar_val(msg) == fsub(scalar_val(*ct), scalar_val(*key)),
{
    scalar_sub(ct, key)
}

/// Decrypting an encryption under the same key recovers the message.
pub proof fn lemma_otp_round_trip(key: nat, msg: nat)
    requires
        in_field(msg),
    ensures
        fsub(fadd(msg, key), key) == msg,
{
    lemma_fadd_then_fsub(key, msg);
    crate::field::lemma_fadd_comm(msg, key);
}

impl SymmetricEncryptionScheme for OneTimePad {
    type Key = k256::Scalar;

    type Message = k256::Scalar;

    type CypherText = k256::Scalar;

    fn enc(key: &k256::Scalar, msg: &k256::Scalar) -> k256::Scalar {
        otp_enc(key, msg)
    }

    fn dec(sk: &k256::Scalar, ct: &k256::Scalar) -> k256::Scalar {
        otp_dec(sk, ct)
    }
}

} // verus!
