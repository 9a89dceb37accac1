//! Points and scalars of the Bandersnatch curve in twisted Edwards form.

use ark_vrf::reexports::ark_serialize::CanonicalDeserialize;
use ark_vrf::reexports::ark_serialize::CanonicalSerialize;
use ark_vrf::suites::bandersnatch::AffinePoint;
use ark_vrf::suites::bandersnatch::Input;
use ark_vrf::suites::bandersnatch::Output;
use ark_vrf::suites::bandersnatch::ScalarField;
use ark_vrf::suites::bandersnatch::Secret;
use vstd::prelude::*;

verus! {

/// Bytes in the compressed encoding of a curve point.
pub const POINT_LEN: usize = 32;

/// Bytes in the encoding of a scalar.
pub const SCALAR_LEN: usize = 32;

/// Bytes in the hash of an output point.
pub const HASH_LEN: usize = 64;

/// What the backend reads from `bytes` as a compressed point of the prime
/// order subgroup, written back in its compressed encoding; `None` where it
/// reads no such point.
pub uninterp spec fn point_decode(bytes: Seq<u8>) -> Option<Seq<u8>>;

/// The secret scalar that the backend derives from `seed`, encoded.
pub uninterp spec fn seed_scalar(seed: Seq<u8>) -> Seq<u8>;

/// The encoded point `scalar * G`, for the encoded `scalar` and the
/// generator `G` of the suite.
pub uninterp spec fn scalar_public(scalar: Seq<u8>) -> Seq<u8>;

/// The encoded point that the suite's hash-to-curve gives for `data`, where
/// it gives one.
pub uninterp spec fn hash_to_point(data: Seq<u8>) -> Option<Seq<u8>>;

/// The encoded point `scalar * input`.
pub uninterp spec fn vrf_output(scalar: Seq<u8>, input: Seq<u8>) -> Seq<u8>;

/// The suite's hash of the encoded point `output`.
pub uninterp spec fn output_hash(output: Seq<u8>) -> Seq<u8>;

/// `bytes` is the encoding that the backend itself writes for a point.
pub open spec fn is_point(bytes: Seq<u8>) -> bool {
    bytes.len() == POINT_LEN && point_decode(bytes) == Some(bytes)
}

/// The encoding of the group's neutral element: `y = 1`, `x = 0`.
pub open spec fn identity_encoding() -> Seq<u8> {
    Seq::new(POINT_LEN as nat, |i: int| if i == 0 { 1u8 } else { 0u8 })
}

/// `bytes` encodes a point that can be a public key: any but the neutral
/// element.
pub open spec fn is_public_key(bytes: Seq<u8>) -> bool {
    is_point(bytes) && bytes != identity_encoding()
}

/// `bytes` is the scalar of some seed.
pub open spec fn is_secret_scalar(bytes: Seq<u8>) -> bool {
    bytes.len() == SCALAR_LEN && exists|seed: Seq<u8>| bytes == #[trigger] seed_scalar(seed)
}

/// `AffinePoint::deserialize_compressed`, with validation, followed by
/// `serialize_compressed`. A point that the backend accepts is handed back in
/// the one encoding the backend writes for it, which it reads back as the
/// same point.
#[verifier::external_body]
pub(crate) fn decode_point(bytes: &[u8]) -> (r: Option<[u8; 32]>)
    ensures
        r matches Some(p) ==> point_decode(bytes@) == Some(p@) && is_point(p@),
        r is None ==> point_decode(bytes@) is None,
{
    let point = AffinePoint::deserialize_compressed(bytes).ok()?;
    let mut buf = Vec::new();
    point.serialize_compressed(&mut buf).ok()?;
    buf.try_into().ok()
}

/// `Secret::from_seed`: hashes the seed to a scalar other than zero. The
/// result is that scalar's encoding.
#[verifier::external_body]
pub(crate) fn scalar_from_seed(seed: &[u8]) -> (r: [u8; 32])
    ensures
        r@ == seed_scalar(seed@),
{
    let mut buf = Vec::new();
    Secret::from_seed(seed).scalar.serialize_compressed(&mut buf).unwrap();
    buf.try_into().unwrap()
}

/// `Secret::from_scalar` and `Secret::public`: the generator multiplied by
/// the scalar. The scalar of a seed is not zero and the group has prime
/// order, so the product is not the neutral element.
#[verifier::external_body]
pub(crate) fn public_from_scalar(scalar: &[u8; 32]) -> (r: [u8; 32])
    requires
        is_secret_scalar(scalar@),
    ensures
        r@ == scalar_public(scalar@),
        is_public_key(r@),
{
    let scalar = ScalarField::deserialize_compressed(&scalar[..]).unwrap();
    let mut buf = Vec::new();
    Secret::from_scalar(scalar).public().serialize_compressed(&mut buf).unwrap();
    buf.try_into().unwrap()
}

/// `Input::new`: the suite's Elligator 2 hash-to-curve. It is a function of
/// the data alone and may give no point.
#[verifier::external_body]
pub(crate) fn point_from_data(data: &[u8]) -> (r: Option<[u8; 32]>)
    ensures
        r matches Some(p) ==> hash_to_point(data@) == Some(p@) && is_point(p@),
        r is None ==> hash_to_point(data@) is None,
{
    let input = Input::new(data)?;
    let mut buf = Vec::new();
    input.serialize_compressed(&mut buf).ok()?;
    buf.try_into().ok()
}

/// `Secret::output`: the input point multiplied by the secret scalar.
#[verifier::external_body]
pub(crate) fn output_point(scalar: &[u8; 32], input: &[u8; 32]) -> (r: [u8; 32])
    requires
        is_secret_scalar(scalar@),
        is_point(input@),
    ensures
        r@ == vrf_output(scalar@, input@),
        is_point(r@),
{
    let scalar = ScalarField::deserialize_compressed(&scalar[..]).unwrap();
    let input = Input::deserialize_compressed(&input[..]).unwrap();
    let mut buf = Vec::new();
    Secret::from_scalar(scalar).output(input).serialize_compressed(&mut buf).unwrap();
    buf.try_into().unwrap()
}

/// `Output::hash`: the suite's point-to-hash, SHA-512 over the encoded
/// point between domain separators.
#[verifier::external_body]
pub(crate) fn hash_output(output: &[u8; 32]) -> (r: [u8; 64])
    requires
        is_point(output@),
    ensures
        r@ == output_hash(output@),
{
    Output::deserialize_compressed(&output[..]).unwrap().hash().into()
}

} // verus!
