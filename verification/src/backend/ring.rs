//! The anonymous ring proof: a Pedersen proof of the output together with a
//! proof that the committed key is a member of the ring.

use ark_vrf::reexports::ark_serialize::CanonicalDeserialize;
use ark_vrf::reexports::ark_serialize::CanonicalSerialize;
use ark_vrf::ring::Prover;
use ark_vrf::ring::Verifier;
use ark_vrf::suites::bandersnatch::AffinePoint;
use ark_vrf::suites::bandersnatch::Input;
use ark_vrf::suites::bandersnatch::Output;
use ark_vrf::suites::bandersnatch::Public;
use ark_vrf::suites::bandersnatch::RingCommitment;
use ark_vrf::suites::bandersnatch::RingProof;
use ark_vrf::suites::bandersnatch::RingProofParams;
use ark_vrf::suites::bandersnatch::RingVerifierKey;
use ark_vrf::suites::bandersnatch::ScalarField;
use ark_vrf::suites::bandersnatch::Secret;
use crate::backend::curve::is_point;
use crate::backend::curve::is_public_key;
use crate::backend::curve::is_secret_scalar;
use crate::backend::curve::scalar_public;
use crate::ring::RingContext;
use vstd::prelude::*;
use w3f_ring_proof::pcs::PcsParams;

verus! {

/// The largest ring a context can be built for. The backend lays a ring of
/// `n` keys out on a domain of the next power of two from `n + 257`, and
/// works on a domain four times that size, whose size has to stay below
/// `2^32` to be counted on every target: `2^29 - 257` keys.
pub const MAX_RING_SIZE: usize = 536870655;

/// Bytes in the encoding of a ring proof.
pub const RING_PROOF_LEN: usize = 752;

/// Bytes at the head of a ring proof that hold its Pedersen proof: three
/// points and two scalars.
pub const PEDERSEN_PROOF_LEN: usize = 160;

/// Bytes in the encoding of a ring commitment: three points of the pairing
/// curve's first group.
pub const COMMITMENT_LEN: usize = 144;

/// Bytes in the encoding of the part of a verifier key that no ring changes.
pub const KZG_KEY_LEN: usize = 240;

/// The backend's ring proof parameters: the reference string and the proof
/// domain. Nothing inside is visible to the contracts.
#[verifier::external_body]
pub struct RingParams {
    pub(crate) inner: RingProofParams,
}

type RawVerifierKey = <ark_vrf::suites::bandersnatch::PcsParams as PcsParams>::RVK;

/// What the backend reads from `bytes` as a ring proof, written back in its
/// encoding; `None` where it reads none.
pub uninterp spec fn ring_proof_decode(bytes: Seq<u8>) -> Option<Seq<u8>>;

/// The encoded Pedersen proof that the backend builds from the encoded
/// secret scalar, input point, output point and the auxiliary data: the
/// blinded key, and the proof that the output belongs to it.
pub uninterp spec fn pedersen_proof(
    scalar: Seq<u8>,
    input: Seq<u8>,
    output: Seq<u8>,
    aux: Seq<u8>,
) -> Seq<u8>;

/// What the backend reads from `bytes` as a ring commitment, written back
/// in its encoding; `None` where it reads none.
pub uninterp spec fn commitment_decode(bytes: Seq<u8>) -> Option<Seq<u8>>;

/// What the backend reads from `bytes` as the raw verifier key of the
/// polynomial commitment scheme, written back in its encoding; `None` where
/// it reads none.
pub uninterp spec fn kzg_key_decode(bytes: Seq<u8>) -> Option<Seq<u8>>;

/// The encoded raw verifier key of the reference string that the backend
/// generates for a ring size from a seed.
pub uninterp spec fn kzg_key(size: nat, seed: Seq<u8>) -> Seq<u8>;

/// The encoded commitment to a ring of encoded keys, under the parameters
/// of a ring size and a seed.
pub uninterp spec fn ring_commitment(size: nat, seed: Seq<u8>, ring: Seq<Seq<u8>>) -> Seq<u8>;

/// Whether the backend accepts the encoded ring proof for the encoded input
/// point, output point and the auxiliary data, under the verifier key made
/// of `kzg` and `commitment` and the proof domain of the ring size.
pub uninterp spec fn ring_verifies(
    size: nat,
    kzg: Seq<u8>,
    commitment: Seq<u8>,
    input: Seq<u8>,
    output: Seq<u8>,
    aux: Seq<u8>,
    proof: Seq<u8>,
) -> bool;

/// `bytes` is the encoding that the backend itself writes for a ring proof.
pub open spec fn is_ring_proof(bytes: Seq<u8>) -> bool {
    bytes.len() == RING_PROOF_LEN && ring_proof_decode(bytes) == Some(bytes)
}

/// `bytes` is the encoding that the backend itself writes for a ring
/// commitment.
pub open spec fn is_commitment(bytes: Seq<u8>) -> bool {
    bytes.len() == COMMITMENT_LEN && commitment_decode(bytes) == Some(bytes)
}

/// `bytes` is the encoding that the backend itself writes for a raw
/// verifier key.
pub open spec fn is_kzg_key(bytes: Seq<u8>) -> bool {
    bytes.len() == KZG_KEY_LEN && kzg_key_decode(bytes) == Some(bytes)
}

/// The encoding of the point that fills the unused slots of a ring.
pub open spec fn padding_encoding() -> Seq<u8> {
    seq![
        146u8, 202u8, 121u8, 230u8, 29u8, 217u8, 12u8, 21u8, 115u8, 168u8, 105u8, 63u8, 25u8,
        155u8, 246u8, 225u8, 232u8, 104u8, 53u8, 204u8, 113u8, 92u8, 220u8, 249u8, 63u8, 94u8,
        242u8, 34u8, 86u8, 0u8, 35u8, 170u8,
    ]
}

/// The encodings of a ring of points.
pub open spec fn encodings(ring: Seq<[u8; 32]>) -> Seq<Seq<u8>> {
    ring.map_values(|point: [u8; 32]| point@)
}

/// `RingProofParams::from_seed`: generates the reference string for rings
/// of up to `size` keys from a generator seeded with `seed`, and sets the
/// proof domain up. Sizes over [`MAX_RING_SIZE`] are kept from it.
#[verifier::external_body]
pub(crate) fn make_params(size: usize, seed: [u8; 32]) -> (r: RingParams)
    requires
        0 < size <= MAX_RING_SIZE,
{
    RingParams { inner: RingProofParams::from_seed(size, seed) }
}

/// `RingProofParams::padding_point`: a constant of the suite, a point of
/// the group with no known discrete logarithm.
#[verifier::external_body]
pub(crate) fn suite_padding() -> (r: [u8; 32])
    ensures
        r@ == padding_encoding(),
        is_public_key(r@),
{
    let mut buf = Vec::new();
    RingProofParams::padding_point().serialize_compressed(&mut buf).unwrap();
    buf.try_into().unwrap()
}

/// `PcsParams::raw_vk` on the reference string of the context: three points
/// that do not depend on any ring.
#[verifier::external_body]
pub(crate) fn raw_kzg_key(ctx: &RingContext) -> (r: [u8; 240])
    ensures
        r@ == kzg_key(ctx.spec_max_size(), ctx.spec_seed()),
        is_kzg_key(r@),
{
    let mut buf = Vec::new();
    ctx.params.inner.pcs.raw_vk().serialize_compressed(&mut buf).unwrap();
    buf.try_into().unwrap()
}

/// `RingProofParams::verifier_key` and `commitment` on its result: indexes
/// the ring, padded to the capacity of the domain, and commits to its
/// columns. The backend refuses the neutral element as a member and
/// silently drops members beyond the capacity, which is not below the size
/// that the context was built for.
#[verifier::external_body]
pub(crate) fn commit_ring(ctx: &RingContext, ring: &Vec<[u8; 32]>) -> (r: [u8; 144])
    requires
        ring@.len() <= ctx.spec_max_size(),
        forall|i: int| 0 <= i < ring@.len() ==> is_public_key(#[trigger] ring@[i]@),
    ensures
        r@ == ring_commitment(ctx.spec_max_size(), ctx.spec_seed(), encodings(ring@)),
        is_commitment(r@),
{
    let points: Vec<AffinePoint> =
        ring.iter().map(|p| AffinePoint::deserialize_compressed(&p[..]).unwrap()).collect();
    let mut buf = Vec::new();
    ctx.params.inner.verifier_key(&points).commitment().serialize_compressed(&mut buf).unwrap();
    buf.try_into().unwrap()
}

/// `RingProofParams::prover_key`, `RingProofParams::prover` and
/// `ring::Prover::prove` on a `Secret`. The proof starts with the Pedersen
/// proof, whose blinding factor and nonces are derived from the arguments.
/// The membership proof after it is blinded with fresh randomness: two
/// calls on the same arguments give different proofs, each in the backend's
/// encoding. The index has to address a slot of the ring's column.
///
/// The backend adds the key at the index and the blinded base, bit by bit,
/// onto the accumulator base, with formulas that are not complete, and
/// stops on a sum that is the neutral element: a key chosen against the
/// accumulator base stops it. It asks that the prover possess the key. For
/// the public key of the secret scalar a special sum is a relation between
/// the generator, the accumulator base and the blinding base, which were
/// generated so that none is known.
#[verifier::external_body]
pub(crate) fn prove_ring(
    ctx: &RingContext,
    ring: &Vec<[u8; 32]>,
    index: usize,
    scalar: &[u8; 32],
    input: &[u8; 32],
    output: &[u8; 32],
    aux: &[u8],
) -> (r: [u8; 752])
    requires
        index < ring@.len() <= ctx.spec_max_size(),
        forall|i: int| 0 <= i < ring@.len() ==> is_public_key(#[trigger] ring@[i]@),
        is_secret_scalar(scalar@),
        ring@[index as int]@ == scalar_public(scalar@),
        is_point(input@),
        is_point(output@),
    ensures
        is_ring_proof(r@),
        r@.subrange(0, PEDERSEN_PROOF_LEN as int) == pedersen_proof(
            scalar@,
            input@,
            output@,
            aux@,
        ),
{
    let points: Vec<AffinePoint> =
        ring.iter().map(|p| AffinePoint::deserialize_compressed(&p[..]).unwrap()).collect();
    let params = &ctx.params.inner;
    let prover = params.prover(params.prover_key(&points), index);
    let secret = Secret::from_scalar(ScalarField::deserialize_compressed(&scalar[..]).unwrap());
    let input = Input::deserialize_compressed(&input[..]).unwrap();
    let output = Output::deserialize_compressed(&output[..]).unwrap();
    let mut buf = Vec::new();
    secret.prove(input, output, aux, &prover).serialize_compressed(&mut buf).unwrap();
    buf.try_into().unwrap()
}

/// `RingVerifierKey::from_commitment_and_kzg_vk`, `RingProofParams::verifier`
/// and `ring::Verifier::verify`. Of the context the verifier takes the proof
/// domain, which the ring size fixes. `true` stands for `Ok`, `false` for
/// the verification failure.
#[verifier::external_body]
pub(crate) fn verify_ring(
    ctx: &RingContext,
    kzg: &[u8; 240],
    commitment: &[u8; 144],
    input: &[u8; 32],
    output: &[u8; 32],
    aux: &[u8],
    proof: &[u8; 752],
) -> (r: bool)
    requires
        is_kzg_key(kzg@),
        is_commitment(commitment@),
        is_point(input@),
        is_point(output@),
        is_ring_proof(proof@),
    ensures
        r == ring_verifies(
            ctx.spec_max_size(),
            kzg@,
            commitment@,
            input@,
            output@,
            aux@,
            proof@,
        ),
{
    let kzg = RawVerifierKey::deserialize_compressed(&kzg[..]).unwrap();
    let commitment = RingCommitment::deserialize_compressed(&commitment[..]).unwrap();
    let key = RingVerifierKey::from_commitment_and_kzg_vk(commitment, kzg);
    let verifier = ctx.params.inner.verifier(key);
    let input = Input::deserialize_compressed(&input[..]).unwrap();
    let output = Output::deserialize_compressed(&output[..]).unwrap();
    let proof = RingProof::deserialize_compressed(&proof[..]).unwrap();
    Public::verify(input, output, aux, &proof, &verifier).is_ok()
}

/// `RingProof::deserialize_compressed`, with validation, followed by
/// `serialize_compressed`.
#[verifier::external_body]
pub(crate) fn decode_ring_proof(bytes: &[u8]) -> (r: Option<[u8; 752]>)
    ensures
        r matches Some(p) ==> ring_proof_decode(bytes@) == Some(p@) && is_ring_proof(p@),
        r is None ==> ring_proof_decode(bytes@) is None,
{
    let proof = RingProof::deserialize_compressed(bytes).ok()?;
    let mut buf = Vec::new();
    proof.serialize_compressed(&mut buf).ok()?;
    buf.try_into().ok()
}

/// `RingCommitment::deserialize_compressed`, with validation, followed by
/// `serialize_compressed`.
#[verifier::external_body]
pub(crate) fn decode_commitment(bytes: &[u8]) -> (r: Option<[u8; 144]>)
    ensures
        r matches Some(c) ==> commitment_decode(bytes@) == Some(c@) && is_commitment(c@),
        r is None ==> commitment_decode(bytes@) is None,
{
    let commitment = RingCommitment::deserialize_compressed(bytes).ok()?;
    let mut buf = Vec::new();
    commitment.serialize_compressed(&mut buf).ok()?;
    buf.try_into().ok()
}

/// `deserialize_compressed` of the raw verifier key, with validation,
/// followed by `serialize_compressed`.
#[verifier::external_body]
pub(crate) fn decode_kzg_key(bytes: &[u8]) -> (r: Option<[u8; 240]>)
    ensures
        r matches Some(k) ==> kzg_key_decode(bytes@) == Some(k@) && is_kzg_key(k@),
        r is None ==> kzg_key_decode(bytes@) is None,
{
    let key = RawVerifierKey::deserialize_compressed(bytes).ok()?;
    let mut buf = Vec::new();
    key.serialize_compressed(&mut buf).ok()?;
    buf.try_into().ok()
}

} // verus!
