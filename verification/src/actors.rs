//! The two parties of a ticket lottery: a prover that signs with its own
//! key as one member of a ring, and a verifier that holds the ring and its
//! commitment.

use crate::backend::curve::hash_to_point;
use crate::backend::curve::is_point;
use crate::backend::curve::scalar_public;
use crate::backend::curve::seed_scalar;
use crate::backend::curve::vrf_output;
use crate::backend::curve::POINT_LEN;
use crate::backend::ietf::ietf_proof;
use crate::backend::ietf::ietf_verifies;
use crate::backend::ietf::is_ietf_proof;
use crate::backend::ring::is_ring_proof;
use crate::backend::ring::kzg_key;
use crate::backend::ring::pedersen_proof;
use crate::backend::ring::ring_commitment;
use crate::backend::ring::ring_verifies;
use crate::envelope::envelope;
use crate::envelope::ietf_envelope_parse;
use crate::envelope::ring_envelope_parse;
use crate::envelope::IetfVrfSignature;
use crate::envelope::RingVrfSignature;
use crate::envelope::RING_SIGNATURE_LEN;
use crate::error::Error;
use crate::ietf::prove;
use crate::ietf::verify;
use crate::keys::derive_secret;
use crate::keys::input_from_data;
use crate::keys::output_of;
use crate::keys::output_ticket;
use crate::keys::Input;
use crate::keys::Public;
use crate::keys::Secret;
use crate::ring::pedersen_part;
use crate::ring::prover_key;
use crate::ring::rebuild_verifier_key;
use crate::ring::ring_verify;
use crate::ring::ring_view;
use crate::ring::try_ring_prove;
use crate::ring::verifier_key;
use crate::ring::RingCommitment;
use crate::ring::RingContext;
use vstd::bytes::spec_u64_to_le_bytes;
use vstd::bytes::u64_to_le_bytes;
use vstd::pervasive::unreached;
use vstd::prelude::*;

verus! {

/// The ring size of the standard context.
pub const RING_SIZE: usize = 1023;

/// A member of a ring that signs with the secret key of its own slot.
pub struct Prover {
    pub prover_idx: usize,
    pub secret: Secret,
    pub ring: Vec<Public>,
}

/// A party that checks signatures against a ring and its commitment.
pub struct Verifier {
    pub commitment: RingCommitment,
    pub ring: Vec<Public>,
}

/// The seed of the member at `index`: the index as eight little-endian
/// bytes.
pub open spec fn index_seed(index: usize) -> Seq<u8> {
    spec_u64_to_le_bytes(index as u64)
}

/// The direct signature of an encoded secret scalar on an encoded input
/// point: the envelope of the output and of the direct proof.
pub open spec fn ietf_signature(secret: Seq<u8>, input: Seq<u8>, aux: Seq<u8>) -> Seq<u8> {
    envelope(
        vrf_output(secret, input),
        ietf_proof(secret, input, vrf_output(secret, input), aux),
    )
}

/// `signature` is an anonymous signature of an encoded secret scalar on an
/// encoded input point: the envelope of the output and of a ring proof
/// that starts with the Pedersen proof of the output. The rest of the ring
/// proof is not fixed by the signer's values.
pub open spec fn is_ring_signature(
    signature: Seq<u8>,
    secret: Seq<u8>,
    input: Seq<u8>,
    aux: Seq<u8>,
) -> bool {
    let proof = signature.subrange(POINT_LEN as int, RING_SIGNATURE_LEN as int);
    &&& signature.len() == RING_SIGNATURE_LEN
    &&& signature.subrange(0, POINT_LEN as int) == vrf_output(secret, input)
    &&& is_ring_proof(proof)
    &&& pedersen_part(proof) == pedersen_proof(secret, input, vrf_output(secret, input), aux)
}

/// The standard context: rings of up to [`RING_SIZE`] keys, from the seed
/// of 32 zero bytes. Building it is costly: a process builds it once and
/// lends it to its provers and verifiers.
pub fn ring_context() -> (r: RingContext)
    ensures
        r.spec_max_size() == RING_SIZE,
        r.spec_seed() == Seq::new(32, |i: int| 0u8),
        r.wf(),
{
    let seed = [0u8; 32];
    assert(seed@ =~= Seq::new(32, |i: int| 0u8));
    match RingContext::new(RING_SIZE, seed) {
        Ok(ctx) => ctx,
        Err(_) => unreached(),
    }
}

/// The input point of application data. Data that the backend maps to no
/// point are refused.
pub fn vrf_input_point(vrf_input_data: &[u8]) -> (r: Result<Input, Error>)
    ensures
        match r {
            Ok(input) => hash_to_point(vrf_input_data@) == Some(input@) && input.wf(),
            Err(e) => e == Error::InputDerivation && hash_to_point(vrf_input_data@) is None,
        },
{
    match input_from_data(vrf_input_data) {
        Some(input) => Ok(input),
        None => Err(Error::InputDerivation),
    }
}

impl Prover {
    /// The ring member at the prover's index is the public key of the
    /// prover's secret key.
    pub open spec fn holds_own_slot(&self) -> bool {
        self.prover_idx < self.ring@.len() && self.ring@[self.prover_idx as int]@
            == scalar_public(self.secret@)
    }

    /// Why the prover cannot sign anonymously for input data under a
    /// context, if it cannot: the first of input data that map to no
    /// point, a ring over the size of the context, an index beyond the
    /// ring, and a slot that holds the key of another.
    pub open spec fn ring_refusal(&self, ctx: RingContext, data: Seq<u8>) -> Option<Error> {
        if hash_to_point(data) is None {
            Some(Error::InputDerivation)
        } else if self.ring@.len() > ctx.spec_max_size() {
            Some(Error::RingTooLarge)
        } else if self.prover_idx >= self.ring@.len() {
            Some(Error::IndexOutOfBounds)
        } else if !self.holds_own_slot() {
            Some(Error::KeyMismatch)
        } else {
            None
        }
    }

    /// The prover at slot `prover_idx` of `ring`. Its secret key is the one
    /// of the slot's seed. Nothing is asked of the index or of the ring
    /// here: signing for the ring refuses an index that addresses no member
    /// and a member that is not the prover's own key.
    pub fn new(ring: Vec<Public>, prover_idx: usize) -> (r: Prover)
        ensures
            r.prover_idx == prover_idx,
            r.ring == ring,
            r.secret@ == seed_scalar(index_seed(prover_idx)),
            r.secret.wf(),
    {
        let seed = u64_to_le_bytes(prover_idx as u64);
        let secret = derive_secret(seed.as_slice());
        Prover { prover_idx, secret, ring }
    }

    /// Signs anonymously: the envelope of the output and of a ring proof
    /// for the prover's slot. The input data must map to a point, the ring
    /// must fit the context and the prover's index must address the
    /// prover's own key. The membership part of the proof differs from
    /// call to call.
    pub fn ring_vrf_sign(&self, ctx: &RingContext, vrf_input_data: &[u8], aux_data: &[u8]) -> (r:
        Result<Vec<u8>, Error>)
        ensures
            match r {
                Ok(signature) => self.ring_refusal(*ctx, vrf_input_data@) is None
                    && is_ring_signature(
                    signature@,
                    self.secret@,
                    hash_to_point(vrf_input_data@)->0,
                    aux_data@,
                ),
                Err(e) => self.ring_refusal(*ctx, vrf_input_data@) == Some(e),
            },
    {
        let input = match vrf_input_point(vrf_input_data) {
            Ok(input) => input,
            Err(e) => {
                return Err(e);
            },
        };
        let output = output_of(&self.secret, &input);
        let key = match prover_key(ctx, &self.ring, self.prover_idx) {
            Ok(key) => key,
            Err(e) => {
                return Err(e);
            },
        };
        let proof = match try_ring_prove(&self.secret, &input, &output, aux_data, &key) {
            Ok(proof) => proof,
            Err(e) => {
                return Err(e);
            },
        };
        let signature = RingVrfSignature { output, proof };
        let bytes = signature.encode();
        proof {
            assert(bytes@.subrange(0, POINT_LEN as int) =~= output@);
            assert(bytes@.subrange(POINT_LEN as int, RING_SIGNATURE_LEN as int) =~= proof@);
        }
        Ok(bytes)
    }

    /// Signs directly: the envelope of the output and of the direct proof,
    /// a function of the secret key, the input data and the auxiliary data.
    /// The input data must map to a point.
    pub fn ietf_vrf_sign(&self, vrf_input_data: &[u8], aux_data: &[u8]) -> (r: Result<
        Vec<u8>,
        Error,
    >)
        ensures
            match r {
                Ok(signature) => hash_to_point(vrf_input_data@) matches Some(input) && signature@
                    == ietf_signature(self.secret@, input, aux_data@),
                Err(e) => e == Error::InputDerivation && hash_to_point(vrf_input_data@) is None,
            },
    {
        let input = match vrf_input_point(vrf_input_data) {
            Ok(input) => input,
            Err(e) => {
                return Err(e);
            },
        };
        let output = output_of(&self.secret, &input);
        let proof = prove(&self.secret, &input, &output, aux_data);
        let signature = IetfVrfSignature { output, proof };
        Ok(signature.encode())
    }
}

impl Verifier {
    /// What checking an anonymous signature gives: an error for a signature
    /// that cannot be read, then for input data that map to no point, and
    /// else whether the backend accepts the proof under the verifier's
    /// commitment and the constant part of the context.
    pub open spec fn ring_outcome(
        &self,
        ctx: RingContext,
        data: Seq<u8>,
        aux: Seq<u8>,
        signature: Seq<u8>,
    ) -> Result<bool, Error> {
        match ring_envelope_parse(signature) {
            None => Err(Error::Decode),
            Some((output, proof)) => match hash_to_point(data) {
                None => Err(Error::InputDerivation),
                Some(input) => Ok(
                    ring_verifies(
                        ctx.spec_max_size(),
                        kzg_key(ctx.spec_max_size(), ctx.spec_seed()),
                        self.commitment@,
                        input,
                        output,
                        aux,
                        proof,
                    ),
                ),
            },
        }
    }

    /// What checking a direct signature gives: an error for a signature
    /// that cannot be read, then for input data that map to no point, then
    /// for an index beyond the ring, and else whether the backend accepts
    /// the proof under the key of the ring member at the index.
    pub open spec fn ietf_outcome(
        &self,
        data: Seq<u8>,
        aux: Seq<u8>,
        signature: Seq<u8>,
        index: usize,
    ) -> Result<bool, Error> {
        match ietf_envelope_parse(signature) {
            None => Err(Error::Decode),
            Some((output, proof)) => match hash_to_point(data) {
                None => Err(Error::InputDerivation),
                Some(input) => if index >= self.ring@.len() {
                    Err(Error::IndexOutOfBounds)
                } else {
                    Ok(ietf_verifies(self.ring@[index as int]@, input, output, aux, proof))
                },
            },
        }
    }

    /// The verifier of `ring`: it indexes the ring once and keeps the
    /// commitment. A ring with more keys than the context was built for is
    /// refused.
    pub fn new(ctx: &RingContext, ring: Vec<Public>) -> (r: Result<Verifier, Error>)
        ensures
            match r {
                Ok(verifier) => ring@.len() <= ctx.spec_max_size() && verifier.ring == ring
                    && verifier.commitment@ == ring_commitment(
                    ctx.spec_max_size(),
                    ctx.spec_seed(),
                    ring_view(ring@),
                ) && verifier.commitment.wf(),
                Err(e) => e == Error::RingTooLarge && ring@.len() > ctx.spec_max_size(),
            },
    {
        let commitment = match verifier_key(ctx, &ring) {
            Ok(key) => key.commitment,
            Err(e) => {
                return Err(e);
            },
        };
        Ok(Verifier { ring, commitment })
    }

    /// Checks an anonymous signature without learning the signer. The
    /// verifier key is put together from the kept commitment and the
    /// constant part of the context. A signature that cannot be read and
    /// input data that map to no point are errors; a proof that does not
    /// hold gives `Ok(false)`.
    pub fn ring_vrf_verify(
        &self,
        ctx: &RingContext,
        vrf_input_data: &[u8],
        aux_data: &[u8],
        signature: &[u8],
    ) -> (r: Result<bool, Error>)
        ensures
            r == self.ring_outcome(*ctx, vrf_input_data@, aux_data@, signature@),
    {
        let signature = match RingVrfSignature::decode(signature) {
            Ok(signature) => signature,
            Err(e) => {
                return Err(e);
            },
        };
        let input = match vrf_input_point(vrf_input_data) {
            Ok(input) => input,
            Err(e) => {
                return Err(e);
            },
        };
        let key = rebuild_verifier_key(self.commitment, ctx.constant_component());
        Ok(ring_verify(ctx, &input, &signature.output, aux_data, &signature.proof, &key))
    }

    /// Checks a direct signature against the key of the ring member at
    /// `signer_key_index`. A signature that cannot be read, input data that
    /// map to no point and an index that addresses no member are errors; a
    /// proof that does not hold gives `Ok(false)`.
    pub fn ietf_vrf_verify(
        &self,
        vrf_input_data: &[u8],
        aux_data: &[u8],
        signature: &[u8],
        signer_key_index: usize,
    ) -> (r: Result<bool, Error>)
        ensures
            r == self.ietf_outcome(vrf_input_data@, aux_data@, signature@, signer_key_index),
    {
        let signature = match IetfVrfSignature::decode(signature) {
            Ok(signature) => signature,
            Err(e) => {
                return Err(e);
            },
        };
        let input = match vrf_input_point(vrf_input_data) {
            Ok(input) => input,
            Err(e) => {
                return Err(e);
            },
        };
        if signer_key_index >= self.ring.len() {
            return Err(Error::IndexOutOfBounds);
        }
        let public = &self.ring[signer_key_index];
        Ok(verify(public, &input, &signature.output, aux_data, &signature.proof))
    }
}

/// The anonymous and the direct signature of one secret key on one input
/// point carry the same output, and so the same ticket value, whatever
/// auxiliary data each is bound to.
pub proof fn lemma_signatures_share_the_ticket(
    secret: Seq<u8>,
    input: Seq<u8>,
    ring_aux: Seq<u8>,
    ietf_aux: Seq<u8>,
    ring_signature: Seq<u8>,
)
    requires
        is_ring_signature(ring_signature, secret, input, ring_aux),
        is_point(vrf_output(secret, input)),
        is_ietf_proof(ietf_proof(secret, input, vrf_output(secret, input), ietf_aux)),
    ensures
        ring_envelope_parse(ring_signature) matches Some((ring_output, _))
            && ietf_envelope_parse(ietf_signature(secret, input, ietf_aux)) matches Some(
            (ietf_output, _),
        ) && ring_output == ietf_output && output_ticket(ring_output) == output_ticket(
            vrf_output(secret, input),
        ),
{
    let output = vrf_output(secret, input);
    let proof = ietf_proof(secret, input, output, ietf_aux);
    let direct = ietf_signature(secret, input, ietf_aux);
    assert(direct.subrange(0, POINT_LEN as int) =~= output);
    assert(direct.subrange(POINT_LEN as int, 96) =~= proof);
}

} // verus!
