//! The directly attributable proof: a Schnorr style proof with a
//! deterministic nonce.

use ark_vrf::ietf::Prover;
use ark_vrf::ietf::Verifier;
use ark_vrf::reexports::ark_serialize::CanonicalDeserialize;
use ark_vrf::reexports::ark_serialize::CanonicalSerialize;
use ark_vrf::suites::bandersnatch::IetfProof;
use ark_vrf::suites::bandersnatch::Input;
use ark_vrf::suites::bandersnatch::Output;
use ark_vrf::suites::bandersnatch::Public;
use ark_vrf::suites::bandersnatch::ScalarField;
use ark_vrf::suites::bandersnatch::Secret;
use crate::backend::curve::is_point;
use crate::backend::curve::is_secret_scalar;
use vstd::prelude::*;

verus! {

/// Bytes in the encoding of a direct proof: challenge, then response.
pub const IETF_PROOF_LEN: usize = 64;

/// What the backend reads from `bytes` as a direct proof, written back in
/// its encoding; `None` where it reads none.
pub uninterp spec fn ietf_proof_decode(bytes: Seq<u8>) -> Option<Seq<u8>>;

/// The encoded direct proof that the backend builds from the encoded secret
/// scalar, input point, output point and the auxiliary data.
pub uninterp spec fn ietf_proof(
    scalar: Seq<u8>,
    input: Seq<u8>,
    output: Seq<u8>,
    aux: Seq<u8>,
) -> Seq<u8>;

/// Whether the backend accepts the encoded direct proof for the encoded
/// public key, input point, output point and the auxiliary data.
pub uninterp spec fn ietf_verifies(
    public: Seq<u8>,
    input: Seq<u8>,
    output: Seq<u8>,
    aux: Seq<u8>,
    proof: Seq<u8>,
) -> bool;

/// `bytes` is the encoding that the backend itself writes for a direct
/// proof.
pub open spec fn is_ietf_proof(bytes: Seq<u8>) -> bool {
    bytes.len() == IETF_PROOF_LEN && ietf_proof_decode(bytes) == Some(bytes)
}

/// `IetfProof::deserialize_compressed`, with validation, followed by
/// `serialize_compressed`. The backend reduces the challenge it reads, so
/// the bytes handed back can differ from the bytes read; it reads them back
/// as the same proof.
#[verifier::external_body]
pub(crate) fn decode_ietf_proof(bytes: &[u8]) -> (r: Option<[u8; 64]>)
    ensures
        r matches Some(p) ==> ietf_proof_decode(bytes@) == Some(p@) && is_ietf_proof(p@),
        r is None ==> ietf_proof_decode(bytes@) is None,
{
    let proof = IetfProof::deserialize_compressed(bytes).ok()?;
    let mut buf = Vec::new();
    proof.serialize_compressed(&mut buf).ok()?;
    buf.try_into().ok()
}

/// `ietf::Prover::prove` on a `Secret`. The nonce is derived from the secret
/// scalar and the input point, so the proof is a function of the arguments.
#[verifier::external_body]
pub(crate) fn prove_ietf(
    scalar: &[u8; 32],
    input: &[u8; 32],
    output: &[u8; 32],
    aux: &[u8],
) -> (r: [u8; 64])
    requires
        is_secret_scalar(scalar@),
        is_point(input@),
        is_point(output@),
    ensures
        r@ == ietf_proof(scalar@, input@, output@, aux@),
        is_ietf_proof(r@),
{
    let secret = Secret::from_scalar(ScalarField::deserialize_compressed(&scalar[..]).unwrap());
    let input = Input::deserialize_compressed(&input[..]).unwrap();
    let output = Output::deserialize_compressed(&output[..]).unwrap();
    let mut buf = Vec::new();
    secret.prove(input, output, aux).serialize_compressed(&mut buf).unwrap();
    buf.try_into().unwrap()
}

/// `ietf::Verifier::verify` on a `Public`: recomputes the challenge and
/// compares. `true` stands for `Ok`, `false` for the verification failure.
#[verifier::external_body]
pub(crate) fn verify_ietf(
    public: &[u8; 32],
    input: &[u8; 32],
    output: &[u8; 32],
    aux: &[u8],
    proof: &[u8; 64],
) -> (r: bool)
    requires
        is_point(public@),
        is_point(input@),
        is_point(output@),
        is_ietf_proof(proof@),
    ensures
        r == ietf_verifies(public@, input@, output@, aux@, proof@),
{
    let public = Public::deserialize_compressed(&public[..]).unwrap();
    let input = Input::deserialize_compressed(&input[..]).unwrap();
    let output = Output::deserialize_compressed(&output[..]).unwrap();
    let proof = IetfProof::deserialize_compressed(&proof[..]).unwrap();
    public.verify(input, output, aux, &proof).is_ok()
}

} // verus!
