//! Symmetric encryption: one key for both directions.

use vstd::prelude::*;

verus! {

/// A symmetric encryption scheme.
pub trait SymmetricEncryptionScheme {
    type Key;
    type Message;
    type CypherText;

    fn enc(key: &Self::Key, msg: &Self::Message) -> Self::CypherText;

    fn dec(sk: &Self::Key, ct: &Self::CypherText) -> Self::Message;
}

} // verus!
