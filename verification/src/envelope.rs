//! The signature envelope: an output point followed by its proof. It is the
//! only value that travels between a prover and a verifier.

use crate::backend::curve::decode_point;
use crate::backend::curve::is_point;
use crate::backend::curve::point_decode;
use crate::backend::curve::POINT_LEN;
use crate::backend::ietf::decode_ietf_proof;
use crate::backend::ietf::ietf_proof_decode;
use crate::backend::ietf::is_ietf_proof;
use crate::backend::ring::decode_ring_proof;
use crate::backend::ring::is_ring_proof;
use crate::backend::ring::ring_proof_decode;
use crate::error::Error;
use crate::ietf::IetfProof;
use crate::keys::Output;
use crate::ring::RingProof;
use vstd::prelude::*;
use vstd::slice::slice_subrange;

verus! {

/// Bytes in the envelope of a direct signature.
pub const IETF_SIGNATURE_LEN: usize = 96;

/// Bytes in the envelope of a ring signature.
pub const RING_SIGNATURE_LEN: usize = 784;

/// An output with the direct proof that it belongs to the signer.
#[derive(Clone, Copy, Debug, PartialEq, Eq)]
pub struct IetfVrfSignature {
    pub output: Output,
    pub proof: IetfProof,
}

/// An output with the anonymous proof that it belongs to a ring member.
#[derive(Clone, Copy, Debug, PartialEq, Eq)]
pub struct RingVrfSignature {
    pub output: Output,
    pub proof: RingProof,
}

/// The envelope of an encoded output and an encoded proof.
pub open spec fn envelope(output: Seq<u8>, proof: Seq<u8>) -> Seq<u8> {
    output + proof
}

/// The encoded output and direct proof that an envelope holds: the output
/// in its first 32 bytes, the proof in the 64 that follow. Bytes after
/// those are not looked at.
pub open spec fn ietf_envelope_parse(bytes: Seq<u8>) -> Option<(Seq<u8>, Seq<u8>)> {
    if bytes.len() < IETF_SIGNATURE_LEN {
        None
    } else {
        match (
            point_decode(bytes.subrange(0, POINT_LEN as int)),
            ietf_proof_decode(bytes.subrange(POINT_LEN as int, IETF_SIGNATURE_LEN as int)),
        ) {
            (Some(output), Some(proof)) => Some((output, proof)),
            _ => None,
        }
    }
}

/// The encoded output and ring proof that an envelope holds: the output in
/// its first 32 bytes, the proof in the 752 that follow. Bytes after those
/// are not looked at.
pub open spec fn ring_envelope_parse(bytes: Seq<u8>) -> Option<(Seq<u8>, Seq<u8>)> {
    if bytes.len() < RING_SIGNATURE_LEN {
        None
    } else {
        match (
            point_decode(bytes.subrange(0, POINT_LEN as int)),
            ring_proof_decode(bytes.subrange(POINT_LEN as int, RING_SIGNATURE_LEN as int)),
        ) {
            (Some(output), Some(proof)) => Some((output, proof)),
            _ => None,
        }
    }
}

/// Appends `bytes` to `buf`.
pub(crate) fn append(buf: &mut Vec<u8>, bytes: &[u8])
    ensures
        final(buf)@ == old(buf)@ + bytes@,
{
    let mut i: usize = 0;
    while i < bytes.len()
        invariant
            i <= bytes@.len(),
            buf@ == old(buf)@ + bytes@.subrange(0, i as int),
        decreases bytes@.len() - i,
    {
        buf.push(bytes[i]);
        assert(bytes@.subrange(0, i as int).push(bytes@[i as int]) =~= bytes@.subrange(
            0,
            i + 1,
        ));
        i += 1;
    }
    assert(bytes@.subrange(0, bytes@.len() as int) =~= bytes@);
}

impl IetfVrfSignature {
    /// The envelope: the output's encoding, then the proof's.
    pub fn encode(&self) -> (r: Vec<u8>)
        ensures
            r@ == envelope(self.output@, self.proof@),
            r@.len() == IETF_SIGNATURE_LEN,
    {
        let mut buf: Vec<u8> = Vec::new();
        append(&mut buf, self.output.raw().as_slice());
        append(&mut buf, self.proof.raw().as_slice());
        buf
    }

    /// Reads an envelope. Bytes that are too few, or whose parts the
    /// backend does not read as an output and a proof, are refused.
    pub fn decode(bytes: &[u8]) -> (r: Result<IetfVrfSignature, Error>)
        ensures
            match r {
                Ok(s) => ietf_envelope_parse(bytes@) == Some((s.output@, s.proof@))
                    && s.output.wf() && s.proof.wf(),
                Err(e) => e == Error::Decode && ietf_envelope_parse(bytes@) is None,
            },
    {
        if bytes.len() < IETF_SIGNATURE_LEN {
            return Err(Error::Decode);
        }
        let output = match decode_point(slice_subrange(bytes, 0, POINT_LEN)) {
            Some(point) => Output::from_valid(point),
            None => {
                return Err(Error::Decode);
            },
        };
        let proof = match decode_ietf_proof(slice_subrange(bytes, POINT_LEN, IETF_SIGNATURE_LEN)) {
            Some(proof) => IetfProof::from_valid(proof),
            None => {
                return Err(Error::Decode);
            },
        };
        Ok(IetfVrfSignature { output, proof })
    }
}

impl RingVrfSignature {
    /// The envelope: the output's encoding, then the proof's.
    pub fn encode(&self) -> (r: Vec<u8>)
        ensures
            r@ == envelope(self.output@, self.proof@),
            r@.len() == RING_SIGNATURE_LEN,
    {
        let mut buf: Vec<u8> = Vec::new();
        append(&mut buf, self.output.raw().as_slice());
        append(&mut buf, self.proof.raw().as_slice());
        buf
    }

    /// Reads an envelope. Bytes that are too few, or whose parts the
    /// backend does not read as an output and a proof, are refused.
    pub fn decode(bytes: &[u8]) -> (r: Result<RingVrfSignature, Error>)
        ensures
            match r {
                Ok(s) => ring_envelope_parse(bytes@) == Some((s.output@, s.proof@))
                    && s.output.wf() && s.proof.wf(),
                Err(e) => e == Error::Decode && ring_envelope_parse(bytes@) is None,
            },
    {
        if bytes.len() < RING_SIGNATURE_LEN {
            return Err(Error::Decode);
        }
        let output = match decode_point(slice_subrange(bytes, 0, POINT_LEN)) {
            Some(point) => Output::from_valid(point),
            None => {
                return Err(Error::Decode);
            },
        };
        let proof = match decode_ring_proof(slice_subrange(bytes, POINT_LEN, RING_SIGNATURE_LEN)) {
            Some(proof) => RingProof::from_valid(proof),
            None => {
                return Err(Error::Decode);
            },
        };
        Ok(RingVrfSignature { output, proof })
    }
}

/// Reading the envelope of a well-formed output and direct proof gives
/// back that output and that proof.
pub proof fn lemma_ietf_envelope_round_trip(output: Seq<u8>, proof: Seq<u8>)
    requires
        is_point(output),
        is_ietf_proof(proof),
    ensures
        ietf_envelope_parse(envelope(output, proof)) == Some((output, proof)),
{
    let bytes = envelope(output, proof);
    assert(bytes.subrange(0, POINT_LEN as int) =~= output);
    assert(bytes.subrange(POINT_LEN as int, IETF_SIGNATURE_LEN as int) =~= proof);
}

/// Reading the envelope of a well-formed output and ring proof gives back
/// that output and that proof.
pub proof fn lemma_ring_envelope_round_trip(output: Seq<u8>, proof: Seq<u8>)
    requires
        is_point(output),
        is_ring_proof(proof),
    ensures
        ring_envelope_parse(envelope(output, proof)) == Some((output, proof)),
{
    let bytes = envelope(output, proof);
    assert(bytes.subrange(0, POINT_LEN as int) =~= output);
    assert(bytes.subrange(POINT_LEN as int, RING_SIGNATURE_LEN as int) =~= proof);
}

} // verus!
