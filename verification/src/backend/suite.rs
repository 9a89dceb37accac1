//! The fixed points of the suite in both forms of the curve, and the maps
//! between the forms.

use ark_vrf::pedersen::PedersenSuite;
use ark_vrf::reexports::ark_ec::AffineRepr;
use ark_vrf::reexports::ark_ff::PrimeField;
use ark_vrf::reexports::ark_serialize::CanonicalDeserialize;
use ark_vrf::reexports::ark_serialize::CanonicalSerialize;
use ark_vrf::ring::RingSuite;
use ark_vrf::suites::bandersnatch::BandersnatchSha512Ell2;
use ark_vrf::suites::bandersnatch_sw::BandersnatchSha512Tai;
use ark_vrf::utils::sw_to_te;
use ark_vrf::utils::te_to_sw;
use ark_vrf::Suite;
use blake2::Blake2b512;
use blake2::Digest;
use vstd::prelude::*;

verus! {

/// The point that the short Weierstrass suite's hash-to-curve gives for
/// `data`, in its 33 byte encoding, where it gives one.
pub uninterp spec fn weierstrass_hash_to_point(data: Seq<u8>) -> Option<Seq<u8>>;

/// The BLAKE2b digest of `data`, 64 bytes.
pub uninterp spec fn blake2b(data: Seq<u8>) -> Seq<u8>;

/// The encoded point of the short Weierstrass curve whose first coordinate
/// is `seed` read as a little-endian number modulo the field, with the
/// cofactor cleared; `None` where no point has that coordinate.
pub uninterp spec fn seed_weierstrass_point(seed: Seq<u8>) -> Option<Seq<u8>>;

/// The encoded twisted Edwards point of an encoded short Weierstrass point;
/// `None` where `point` encodes none or the map is not defined on it.
pub uninterp spec fn weierstrass_to_edwards(point: Seq<u8>) -> Option<Seq<u8>>;

/// The encoded short Weierstrass point of an encoded twisted Edwards point;
/// `None` where `point` encodes none or the map is not defined on it.
pub uninterp spec fn edwards_to_weierstrass(point: Seq<u8>) -> Option<Seq<u8>>;

/// The encoding of the blinding base in twisted Edwards form.
pub open spec fn blinding_encoding() -> Seq<u8> {
    seq![
        233u8, 61u8, 160u8, 107u8, 134u8, 151u8, 102u8, 177u8, 88u8, 210u8, 11u8, 132u8, 62u8,
        198u8, 72u8, 204u8, 104u8, 224u8, 183u8, 186u8, 47u8, 112u8, 131u8, 172u8, 240u8, 241u8,
        84u8, 32u8, 93u8, 4u8, 226u8, 62u8,
    ]
}

/// The encoding of the accumulator base in twisted Edwards form.
pub open spec fn accumulator_encoding() -> Seq<u8> {
    seq![
        110u8, 85u8, 116u8, 249u8, 7u8, 127u8, 183u8, 108u8, 136u8, 92u8, 54u8, 25u8, 106u8,
        131u8, 45u8, 186u8, 221u8, 100u8, 20u8, 45u8, 48u8, 91u8, 229u8, 72u8, 119u8, 36u8, 150u8,
        122u8, 207u8, 149u8, 149u8, 160u8,
    ]
}

/// The encoding of the blinding base in short Weierstrass form.
pub open spec fn weierstrass_blinding_encoding() -> Seq<u8> {
    seq![
        242u8, 234u8, 166u8, 9u8, 111u8, 166u8, 10u8, 109u8, 49u8, 241u8, 41u8, 151u8, 131u8,
        127u8, 62u8, 142u8, 71u8, 78u8, 181u8, 248u8, 105u8, 197u8, 219u8, 90u8, 162u8, 62u8,
        243u8, 128u8, 54u8, 55u8, 184u8, 95u8, 128u8,
    ]
}

/// The encoding of the accumulator base in short Weierstrass form.
pub open spec fn weierstrass_accumulator_encoding() -> Seq<u8> {
    seq![
        225u8, 16u8, 78u8, 247u8, 188u8, 185u8, 238u8, 103u8, 206u8, 193u8, 110u8, 194u8, 240u8,
        113u8, 233u8, 126u8, 162u8, 61u8, 48u8, 66u8, 197u8, 20u8, 207u8, 81u8, 78u8, 219u8, 13u8,
        234u8, 132u8, 5u8, 109u8, 68u8, 0u8,
    ]
}

/// The encoding of the padding point in short Weierstrass form.
pub open spec fn weierstrass_padding_encoding() -> Seq<u8> {
    seq![
        185u8, 35u8, 110u8, 30u8, 33u8, 223u8, 59u8, 221u8, 212u8, 183u8, 231u8, 218u8, 135u8,
        240u8, 122u8, 94u8, 94u8, 210u8, 221u8, 159u8, 89u8, 153u8, 53u8, 15u8, 167u8, 16u8,
        242u8, 189u8, 56u8, 8u8, 37u8, 18u8, 128u8,
    ]
}

/// `PedersenSuite::BLINDING_BASE` of the twisted Edwards suite.
#[verifier::external_body]
pub(crate) fn edwards_blinding_base() -> (r: Vec<u8>)
    ensures
        r@ == blinding_encoding(),
{
    let mut buf = Vec::new();
    BandersnatchSha512Ell2::BLINDING_BASE.serialize_compressed(&mut buf).unwrap();
    buf
}

/// `RingSuite::ACCUMULATOR_BASE` of the twisted Edwards suite.
#[verifier::external_body]
pub(crate) fn edwards_accumulator_base() -> (r: Vec<u8>)
    ensures
        r@ == accumulator_encoding(),
{
    let mut buf = Vec::new();
    BandersnatchSha512Ell2::ACCUMULATOR_BASE.serialize_compressed(&mut buf).unwrap();
    buf
}

/// `PedersenSuite::BLINDING_BASE` of the short Weierstrass suite.
#[verifier::external_body]
pub(crate) fn weierstrass_blinding_base() -> (r: Vec<u8>)
    ensures
        r@ == weierstrass_blinding_encoding(),
{
    let mut buf = Vec::new();
    BandersnatchSha512Tai::BLINDING_BASE.serialize_compressed(&mut buf).unwrap();
    buf
}

/// `RingSuite::ACCUMULATOR_BASE` of the short Weierstrass suite.
#[verifier::external_body]
pub(crate) fn weierstrass_accumulator_base() -> (r: Vec<u8>)
    ensures
        r@ == weierstrass_accumulator_encoding(),
{
    let mut buf = Vec::new();
    BandersnatchSha512Tai::ACCUMULATOR_BASE.serialize_compressed(&mut buf).unwrap();
    buf
}

/// `RingSuite::PADDING` of the short Weierstrass suite.
#[verifier::external_body]
pub(crate) fn weierstrass_padding() -> (r: Vec<u8>)
    ensures
        r@ == weierstrass_padding_encoding(),
{
    let mut buf = Vec::new();
    BandersnatchSha512Tai::PADDING.serialize_compressed(&mut buf).unwrap();
    buf
}

/// `Suite::data_to_point` of the short Weierstrass suite: try and
/// increment, a function of the data alone.
#[verifier::external_body]
pub(crate) fn weierstrass_point_from_data(data: &[u8]) -> (r: Option<Vec<u8>>)
    ensures
        r matches Some(p) ==> weierstrass_hash_to_point(data@) == Some(p@),
        r is None ==> weierstrass_hash_to_point(data@) is None,
{
    let point = BandersnatchSha512Tai::data_to_point(data)?;
    let mut buf = Vec::new();
    point.serialize_compressed(&mut buf).ok()?;
    Some(buf)
}

/// `Blake2b512::digest`.
#[verifier::external_body]
pub(crate) fn blake2b_digest(data: &[u8]) -> (r: Vec<u8>)
    ensures
        r@ == blake2b(data@),
        r@.len() == 64,
{
    Blake2b512::digest(data).to_vec()
}

/// `PrimeField::from_le_bytes_mod_order`, `get_point_from_x_unchecked` for
/// the smaller second coordinate, and `AffineRepr::clear_cofactor`, on the
/// short Weierstrass curve.
#[verifier::external_body]
pub(crate) fn weierstrass_point_from_seed(seed: &[u8]) -> (r: Option<Vec<u8>>)
    ensures
        r matches Some(p) ==> seed_weierstrass_point(seed@) == Some(p@),
        r is None ==> seed_weierstrass_point(seed@) is None,
{
    let x = ark_vrf::suites::bandersnatch_sw::BaseField::from_le_bytes_mod_order(seed);
    let point = ark_vrf::suites::bandersnatch_sw::AffinePoint::get_point_from_x_unchecked(x, false)?;
    let mut buf = Vec::new();
    point.clear_cofactor().serialize_compressed(&mut buf).ok()?;
    Some(buf)
}

/// `utils::sw_to_te` on the point that `point` encodes.
#[verifier::external_body]
pub(crate) fn map_to_edwards(point: &[u8]) -> (r: Option<Vec<u8>>)
    ensures
        r matches Some(p) ==> weierstrass_to_edwards(point@) == Some(p@),
        r is None ==> weierstrass_to_edwards(point@) is None,
{
    let point = ark_vrf::suites::bandersnatch_sw::AffinePoint::deserialize_compressed(point).ok()?;
    let mut buf = Vec::new();
    sw_to_te(&point)?.serialize_compressed(&mut buf).ok()?;
    Some(buf)
}

/// `utils::te_to_sw` on the point that `point` encodes.
#[verifier::external_body]
pub(crate) fn map_to_weierstrass(point: &[u8]) -> (r: Option<Vec<u8>>)
    ensures
        r matches Some(p) ==> edwards_to_weierstrass(point@) == Some(p@),
        r is None ==> edwards_to_weierstrass(point@) is None,
{
    let point = ark_vrf::suites::bandersnatch::AffinePoint::deserialize_compressed(point).ok()?;
    let mut buf = Vec::new();
    te_to_sw(&point)?.serialize_compressed(&mut buf).ok()?;
    Some(buf)
}

} // verus!
