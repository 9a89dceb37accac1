//! The directly attributable proof: whoever holds the signer's public key
//! can check that an output belongs to an input.

use crate::backend::ietf::decode_ietf_proof;
use crate::backend::ietf::ietf_proof;
use crate::backend::ietf::ietf_proof_decode;
use crate::backend::ietf::ietf_verifies;
use crate::backend::ietf::is_ietf_proof;
use crate::backend::ietf::prove_ietf;
use crate::backend::ietf::verify_ietf;
use crate::backend::ietf::IETF_PROOF_LEN;
use crate::error::Error;
use crate::keys::Input;
use crate::keys::Output;
use crate::keys::Public;
use crate::keys::Secret;
use vstd::prelude::*;
use vstd::slice::slice_to_vec;

verus! {

/// A direct proof: challenge and response of a Schnorr style argument.
#[derive(Clone, Copy, Debug, PartialEq, Eq)]
pub struct IetfProof {
    pub(crate) bytes: [u8; 64],
}

impl View for IetfProof {
    type V = Seq<u8>;

    /// The encoding of the proof.
    closed spec fn view(&self) -> Seq<u8> {
        self.bytes@
    }
}

/// The direct proof that `bytes` encode.
pub open spec fn ietf_decode(bytes: Seq<u8>) -> Option<Seq<u8>> {
    if bytes.len() == IETF_PROOF_LEN {
        ietf_proof_decode(bytes)
    } else {
        None
    }
}

impl IetfProof {
    #[verifier::type_invariant]
    spec fn inv(self) -> bool {
        self.wf()
    }

    /// The bytes are the backend's encoding of a proof.
    pub open spec fn wf(&self) -> bool {
        is_ietf_proof(self@)
    }

    /// Reads a proof from its 64 byte encoding. Bytes of another length and
    /// bytes that the backend does not read as a proof are refused.
    pub fn from_bytes(bytes: &[u8]) -> (r: Result<IetfProof, Error>)
        ensures
            match r {
                Ok(p) => ietf_decode(bytes@) == Some(p@) && p.wf(),
                Err(e) => e == Error::Decode && ietf_decode(bytes@) is None,
            },
    {
        if bytes.len() != IETF_PROOF_LEN {
            return Err(Error::Decode);
        }
        match decode_ietf_proof(bytes) {
            Some(proof) => Ok(IetfProof { bytes: proof }),
            None => Err(Error::Decode),
        }
    }

    /// The 64 byte encoding of the proof.
    pub fn to_bytes(&self) -> (r: Vec<u8>)
        ensures
            r@ == self@,
    {
        slice_to_vec(self.bytes.as_slice())
    }

    /// The proof of an encoding that the backend wrote.
    pub(crate) fn from_valid(bytes: [u8; 64]) -> (r: IetfProof)
        requires
            is_ietf_proof(bytes@),
        ensures
            r@ == bytes@,
            r.wf(),
    {
        IetfProof { bytes }
    }

    /// The encoded proof, for the backend.
    pub(crate) fn raw(&self) -> (r: &[u8; 64])
        ensures
            r@ == self@,
            is_ietf_proof(r@),
    {
        proof {
            use_type_invariant(self);
        }
        &self.bytes
    }
}

/// Proves that `output` belongs to `input` under the secret key, bound to
/// `aux_data`. The proof is a function of the four arguments.
pub fn prove(secret: &Secret, input: &Input, output: &Output, aux_data: &[u8]) -> (r: IetfProof)
    ensures
        r@ == ietf_proof(secret@, input@, output@, aux_data@),
        r.wf(),
{
    let bytes = prove_ietf(secret.raw(), input.raw(), output.raw(), aux_data);
    IetfProof { bytes }
}

/// Checks a direct proof against the signer's public key. A proof that does
/// not fit the other four arguments gives `false`.
pub fn verify(
    public: &Public,
    input: &Input,
    output: &Output,
    aux_data: &[u8],
    proof: &IetfProof,
) -> (r: bool)
    ensures
        r == ietf_verifies(public@, input@, output@, aux_data@, proof@),
{
    verify_ietf(public.raw(), input.raw(), output.raw(), aux_data, proof.raw())
}

/// Reading the encoding of a direct proof gives the proof back.
pub proof fn lemma_ietf_proof_round_trip(proof: IetfProof)
    requires
        proof.wf(),
    ensures
        ietf_decode(proof@) == Some(proof@),
{
}

} // verus!
