//! Canonical byte encodings of points, scalars and messages.
//!
//! A point encodes as its 32 affine x-coordinate bytes followed by one
//! parity byte for y; a scalar as its 32 big-endian field bytes; a message
//! as its UTF-8 bytes. These encodings measure message sizes; challenge
//! hashing feeds coordinates to the transcript directly and never goes
//! through them.

use vstd::prelude::*;
use k256::elliptic_curve::point::AffineCoordinates;
use crate::group::{point_log, scalar_val};

verus! {

/// The canonical encoding of the point with the given exponent: 32
/// x-coordinate bytes and a parity byte. In a cyclic group the exponent
/// determines the point and so the encoding.
pub uninterp spec fn point_bytes_of(l: nat) -> Seq<u8>;

/// The canonical big-endian encoding of the scalar with the given value.
pub uninterp spec fn scalar_bytes_of(v: nat) -> Seq<u8>;

/// The UTF-8 encoding of a character sequence.
pub uninterp spec fn utf8_of(s: Seq<char>) -> Seq<u8>;

/// Relies on k256's affine conversion and x-coordinate bytes: a function
/// of the point alone; 32 coordinate bytes plus the parity byte.
#[verifier::external_body]
pub fn point_to_byte_vector(point: &k256::ProjectivePoint) -> (v: Vec<u8>)
    ensures
        v@ == point_bytes_of(point_log(*point)),
        v@.len() == 33,
{
    let affine = point.to_affine();
    let mut v: Vec<u8> = Vec::new();
    v.extend_from_slice(affine.x().as_slice());
    v.push(affine.y_is_odd().unwrap_u8());
    v
}

/// Relies on k256's scalar byte conversion: the 32 big-endian bytes of the
/// canonical value.
#[verifier::external_body]
pub fn scalar_to_byte_vector(scalar: &k256::Scalar) -> (v: Vec<u8>)
    ensures
        v@ == scalar_bytes_of(scalar_val(*scalar)),
        v@.len() == 32,
{
    let mut v: Vec<u8> = Vec::new();
    v.extend_from_slice(scalar.to_bytes().as_slice());
    v
}

/// Relies on str::as_bytes: the UTF-8 bytes of the characters alone.
#[verifier::external_body]
pub fn str_to_byte_vector(msg: &str) -> (v: Vec<u8>)
    ensures
        v@ == utf8_of(msg@),
{
    msg.as_bytes().to_vec()
}

} // verus!
