//! Public-key encryption: encrypt under a public key, decrypt with the
//! matching secret key.

use vstd::prelude::*;

verus! {

/// A public-key encryption scheme; `enc` also returns the randomness it
/// drew, for protocols that must open the ciphertext later.
pub trait PublicKeyEncryptionScheme {
    type PK;
    type SK;
    type Message;
    type CypherText;
    type Randomness;

    fn gen() -> (Self::SK, Self::PK);

    fn enc(pk: &Self::PK, msg: &Self::Message) -> (Self::CypherText, Self::Randomness);

    fn dec(sk: &Self::SK, ct: &Self::CypherText) -> Self::Message;
}

} // verus!
