//! Ring contexts, the keys derived from them, and the anonymous ring proof.

use crate::backend::curve::is_public_key;
use crate::backend::curve::scalar_public;
use crate::backend::ring::commit_ring;
use crate::backend::ring::commitment_decode;
use crate::backend::ring::decode_commitment;
use crate::backend::ring::decode_kzg_key;
use crate::backend::ring::decode_ring_proof;
use crate::backend::ring::encodings;
use crate::backend::ring::is_commitment;
use crate::backend::ring::is_kzg_key;
use crate::backend::ring::is_ring_proof;
use crate::backend::ring::kzg_key;
use crate::backend::ring::kzg_key_decode;
use crate::backend::ring::make_params;
use crate::backend::ring::padding_encoding;
use crate::backend::ring::pedersen_proof;
use crate::backend::ring::prove_ring;
use crate::backend::ring::raw_kzg_key;
use crate::backend::ring::ring_commitment;
use crate::backend::ring::ring_proof_decode;
use crate::backend::ring::ring_verifies;
use crate::backend::ring::suite_padding;
use crate::backend::ring::verify_ring;
use crate::backend::ring::RingParams;
use crate::backend::ring::COMMITMENT_LEN;
use crate::backend::ring::KZG_KEY_LEN;
use crate::backend::ring::PEDERSEN_PROOF_LEN;
pub use crate::backend::ring::MAX_RING_SIZE;
use crate::backend::ring::RING_PROOF_LEN;
use crate::error::Error;
use crate::keys::Input;
use crate::keys::Output;
use crate::keys::public_of;
use crate::keys::same_point;
use crate::keys::Public;
use crate::keys::Secret;
use vstd::prelude::*;
use vstd::slice::slice_to_vec;

verus! {

/// The shared setup for rings of up to `max_size` keys: the reference
/// string generated from `seed`, and the proof domain. The parameters of a
/// context are those of its size and seed: only [`RingContext::new`] makes
/// one. Building it is the one costly step; it is built once and lent to
/// every prover and verifier.
pub struct RingContext {
    pub(crate) max_size: usize,
    pub(crate) seed: [u8; 32],
    pub(crate) params: RingParams,
}

/// The part of a verifier key that the reference string fixes and no ring
/// changes.
#[derive(Clone, Copy, Debug, PartialEq, Eq)]
pub struct KzgVerifierKey {
    pub(crate) bytes: [u8; 240],
}

/// The part of a verifier key that the ring fixes: a commitment to the keys
/// in their order.
#[derive(Clone, Copy, Debug, PartialEq, Eq)]
pub struct RingCommitment {
    pub(crate) bytes: [u8; 144],
}

/// What a verifier needs of a ring: the constant part of its context and
/// the commitment to the ring.
#[derive(Clone, Copy, Debug, PartialEq, Eq)]
pub struct VerifierKey {
    pub kzg: KzgVerifierKey,
    pub commitment: RingCommitment,
}

/// What a prover needs of a ring: the context, the keys in their order, and
/// the slot of the prover's own key.
pub struct ProverKey<'a> {
    pub(crate) ctx: &'a RingContext,
    pub(crate) ring: &'a Vec<Public>,
    pub(crate) index: usize,
}

/// An anonymous proof: a Pedersen proof of the output under a blinded key,
/// and a proof that the blinded key is a member of the ring.
#[derive(Clone, Copy, Debug, PartialEq, Eq)]
pub struct RingProof {
    pub(crate) bytes: [u8; 752],
}

impl View for KzgVerifierKey {
    type V = Seq<u8>;

    /// The encoding of the key.
    closed spec fn view(&self) -> Seq<u8> {
        self.bytes@
    }
}

impl View for RingCommitment {
    type V = Seq<u8>;

    /// The encoding of the commitment.
    closed spec fn view(&self) -> Seq<u8> {
        self.bytes@
    }
}

impl View for RingProof {
    type V = Seq<u8>;

    /// The encoding of the proof.
    closed spec fn view(&self) -> Seq<u8> {
        self.bytes@
    }
}

/// The encodings of a ring of keys, in their order.
pub open spec fn ring_view(ring: Seq<Public>) -> Seq<Seq<u8>> {
    ring.map_values(|key: Public| key@)
}

/// The constant part of a verifier key that `bytes` encode.
pub open spec fn kzg_decode(bytes: Seq<u8>) -> Option<Seq<u8>> {
    if bytes.len() == KZG_KEY_LEN {
        kzg_key_decode(bytes)
    } else {
        None
    }
}

/// The ring commitment that `bytes` encode.
pub open spec fn ring_commitment_decode(bytes: Seq<u8>) -> Option<Seq<u8>> {
    if bytes.len() == COMMITMENT_LEN {
        commitment_decode(bytes)
    } else {
        None
    }
}

/// The ring proof that `bytes` encode.
pub open spec fn ring_decode(bytes: Seq<u8>) -> Option<Seq<u8>> {
    if bytes.len() == RING_PROOF_LEN {
        ring_proof_decode(bytes)
    } else {
        None
    }
}

/// `key` is the verifier key of `ring` under `ctx`: the constant part of
/// the context with the commitment to the ring.
pub open spec fn is_verifier_key_of(key: VerifierKey, ctx: RingContext, ring: Seq<Public>) -> bool {
    &&& key.kzg@ == kzg_key(ctx.spec_max_size(), ctx.spec_seed())
    &&& key.commitment@ == ring_commitment(
        ctx.spec_max_size(),
        ctx.spec_seed(),
        ring_view(ring),
    )
}

/// The encoded padding point of a context.
pub open spec fn padding_of(ctx: RingContext) -> Seq<u8> {
    padding_encoding()
}

/// The Pedersen proof at the head of an encoded ring proof.
pub open spec fn pedersen_part(proof: Seq<u8>) -> Seq<u8> {
    proof.subrange(0, PEDERSEN_PROOF_LEN as int)
}

/// The verifier key made of a commitment and a constant part.
pub open spec fn rebuilt(commitment: RingCommitment, constant: KzgVerifierKey) -> VerifierKey {
    VerifierKey { kzg: constant, commitment }
}

/// Whether a ring proof is accepted under a verifier key, for rings of up
/// to `size` keys.
pub open spec fn ring_accepts(
    size: nat,
    key: VerifierKey,
    input: Seq<u8>,
    output: Seq<u8>,
    aux: Seq<u8>,
    proof: Seq<u8>,
) -> bool {
    ring_verifies(size, key.kzg@, key.commitment@, input, output, aux, proof)
}

impl RingContext {
    #[verifier::type_invariant]
    spec fn inv(self) -> bool {
        self.wf()
    }

    /// The ring size the context was built for.
    pub closed spec fn spec_max_size(&self) -> nat {
        self.max_size as nat
    }

    /// The seed the context was built from.
    pub closed spec fn spec_seed(&self) -> Seq<u8> {
        self.seed@
    }

    /// The size is one a context can be built for.
    pub open spec fn wf(&self) -> bool {
        0 < self.spec_max_size() <= MAX_RING_SIZE
    }

    /// Builds the context for rings of up to `max_size` keys from a seed.
    /// Size zero and sizes over [`MAX_RING_SIZE`] are refused.
    pub fn new(max_size: usize, seed: [u8; 32]) -> (r: Result<RingContext, Error>)
        ensures
            match r {
                Ok(ctx) => 0 < max_size <= MAX_RING_SIZE && ctx.spec_max_size() == max_size
                    && ctx.spec_seed() == seed@ && ctx.wf(),
                Err(e) => e == Error::InvalidRingSize && !(0 < max_size <= MAX_RING_SIZE),
            },
    {
        if max_size == 0 || max_size > MAX_RING_SIZE {
            return Err(Error::InvalidRingSize);
        }
        let params = make_params(max_size, seed);
        Ok(RingContext { max_size, seed, params })
    }

    /// The ring size the context was built for.
    pub fn max_size(&self) -> (r: usize)
        ensures
            r == self.spec_max_size(),
            0 < r <= MAX_RING_SIZE,
    {
        proof {
            use_type_invariant(self);
        }
        self.max_size
    }

    /// The seed the context was built from.
    pub fn seed(&self) -> (r: [u8; 32])
        ensures
            r@ == self.spec_seed(),
    {
        self.seed
    }

    /// The part of every verifier key of this context that no ring changes.
    pub fn constant_component(&self) -> (r: KzgVerifierKey)
        ensures
            r@ == kzg_key(self.spec_max_size(), self.spec_seed()),
            r.wf(),
    {
        let bytes = raw_kzg_key(self);
        KzgVerifierKey { bytes }
    }

    /// The point that fills the unused slots of a ring. It is the same for
    /// every context.
    pub fn padding_point(&self) -> (r: Public)
        ensures
            r@ == padding_of(*self),
            r.wf(),
    {
        padding_point()
    }
}

impl KzgVerifierKey {
    #[verifier::type_invariant]
    spec fn inv(self) -> bool {
        self.wf()
    }

    /// The bytes are the backend's encoding of a raw verifier key.
    pub open spec fn wf(&self) -> bool {
        is_kzg_key(self@)
    }

    /// Reads the constant part of a verifier key from its 240 byte encoding.
    pub fn from_bytes(bytes: &[u8]) -> (r: Result<KzgVerifierKey, Error>)
        ensures
            match r {
                Ok(k) => kzg_decode(bytes@) == Some(k@) && k.wf(),
                Err(e) => e == Error::Decode && kzg_decode(bytes@) is None,
            },
    {
        if bytes.len() != KZG_KEY_LEN {
            return Err(Error::Decode);
        }
        match decode_kzg_key(bytes) {
            Some(key) => Ok(KzgVerifierKey { bytes: key }),
            None => Err(Error::Decode),
        }
    }

    /// The 240 byte encoding of the key.
    pub fn to_bytes(&self) -> (r: Vec<u8>)
        ensures
            r@ == self@,
    {
        slice_to_vec(self.bytes.as_slice())
    }

    /// The encoded key, for the backend.
    pub(crate) fn raw(&self) -> (r: &[u8; 240])
        ensures
            r@ == self@,
            is_kzg_key(r@),
    {
        proof {
            use_type_invariant(self);
        }
        &self.bytes
    }
}

impl RingCommitment {
    #[verifier::type_invariant]
    spec fn inv(self) -> bool {
        self.wf()
    }

    /// The bytes are the backend's encoding of a ring commitment.
    pub open spec fn wf(&self) -> bool {
        is_commitment(self@)
    }

    /// Reads a ring commitment from its 144 byte encoding.
    pub fn from_bytes(bytes: &[u8]) -> (r: Result<RingCommitment, Error>)
        ensures
            match r {
                Ok(c) => ring_commitment_decode(bytes@) == Some(c@) && c.wf(),
                Err(e) => e == Error::Decode && ring_commitment_decode(bytes@) is None,
            },
    {
        if bytes.len() != COMMITMENT_LEN {
            return Err(Error::Decode);
        }
        match decode_commitment(bytes) {
            Some(commitment) => Ok(RingCommitment { bytes: commitment }),
            None => Err(Error::Decode),
        }
    }

    /// The 144 byte encoding of the commitment.
    pub fn to_bytes(&self) -> (r: Vec<u8>)
        ensures
            r@ == self@,
    {
        slice_to_vec(self.bytes.as_slice())
    }

    /// The encoded commitment, for the backend.
    pub(crate) fn raw(&self) -> (r: &[u8; 144])
        ensures
            r@ == self@,
            is_commitment(r@),
    {
        proof {
            use_type_invariant(self);
        }
        &self.bytes
    }
}

impl RingProof {
    #[verifier::type_invariant]
    spec fn inv(self) -> bool {
        self.wf()
    }

    /// The bytes are the backend's encoding of a ring proof.
    pub open spec fn wf(&self) -> bool {
        is_ring_proof(self@)
    }

    /// Reads a ring proof from its 752 byte encoding.
    pub fn from_bytes(bytes: &[u8]) -> (r: Result<RingProof, Error>)
        ensures
            match r {
                Ok(p) => ring_decode(bytes@) == Some(p@) && p.wf(),
                Err(e) => e == Error::Decode && ring_decode(bytes@) is None,
            },
    {
        if bytes.len() != RING_PROOF_LEN {
            return Err(Error::Decode);
        }
        match decode_ring_proof(bytes) {
            Some(proof) => Ok(RingProof { bytes: proof }),
            None => Err(Error::Decode),
        }
    }

    /// The 752 byte encoding of the proof.
    pub fn to_bytes(&self) -> (r: Vec<u8>)
        ensures
            r@ == self@,
    {
        slice_to_vec(self.bytes.as_slice())
    }

    /// The proof of an encoding that the backend wrote.
    pub(crate) fn from_valid(bytes: [u8; 752]) -> (r: RingProof)
        requires
            is_ring_proof(bytes@),
        ensures
            r@ == bytes@,
            r.wf(),
    {
        RingProof { bytes }
    }

    /// The encoded proof, for the backend.
    pub(crate) fn raw(&self) -> (r: &[u8; 752])
        ensures
            r@ == self@,
            is_ring_proof(r@),
    {
        proof {
            use_type_invariant(self);
        }
        &self.bytes
    }
}

impl<'a> ProverKey<'a> {
    #[verifier::type_invariant]
    spec fn inv(self) -> bool {
        self.wf()
    }

    /// The context the key was derived from.
    pub closed spec fn spec_context(&self) -> RingContext {
        *self.ctx
    }

    /// The keys of the ring, in their order.
    pub closed spec fn spec_ring(&self) -> Seq<Public> {
        self.ring@
    }

    /// The slot of the prover's own key.
    pub closed spec fn spec_index(&self) -> nat {
        self.index as nat
    }

    /// The index addresses a member, and the ring fits the context.
    pub open spec fn wf(&self) -> bool {
        self.spec_index() < self.spec_ring().len() <= self.spec_context().spec_max_size()
    }

    /// The ring member at the prover's index.
    pub open spec fn spec_member(&self) -> Public {
        self.spec_ring()[self.spec_index() as int]
    }

    /// The ring member at the prover's index is the public key of `secret`.
    pub open spec fn is_key_of(&self, secret: Secret) -> bool {
        self.spec_member()@ == scalar_public(secret@)
    }

    /// The ring member at the prover's index.
    pub fn member(&self) -> (r: Public)
        ensures
            r == self.spec_member(),
            self.wf(),
    {
        proof {
            use_type_invariant(self);
        }
        self.ring[self.index]
    }

    /// The slot of the prover's own key.
    pub fn index(&self) -> (r: usize)
        ensures
            r == self.spec_index(),
    {
        self.index
    }

    /// The number of keys in the ring.
    pub fn ring_len(&self) -> (r: usize)
        ensures
            r == self.spec_ring().len(),
    {
        self.ring.len()
    }
}

/// The point that fills the unused slots of a ring: a constant of the
/// suite, whatever the ring size and the seed of a context.
pub fn padding_point() -> (r: Public)
    ensures
        r@ == padding_encoding(),
        r.wf(),
{
    Public::from_valid(suite_padding())
}

/// The encoded points of a ring of keys, as the backend takes them.
pub(crate) fn ring_points(ring: &Vec<Public>) -> (r: Vec<[u8; 32]>)
    ensures
        encodings(r@) == ring_view(ring@),
        r@.len() == ring@.len(),
        forall|i: int| 0 <= i < r@.len() ==> (#[trigger] r@[i])@ == ring@[i]@,
        forall|i: int| 0 <= i < r@.len() ==> is_public_key(#[trigger] r@[i]@),
{
    let mut points: Vec<[u8; 32]> = Vec::new();
    let mut i: usize = 0;
    while i < ring.len()
        invariant
            i <= ring@.len(),
            points@.len() == i,
            forall|j: int| 0 <= j < i ==> (#[trigger] points@[j])@ == ring@[j]@,
            forall|j: int| 0 <= j < i ==> is_public_key(#[trigger] points@[j]@),
        decreases ring@.len() - i,
    {
        let point = ring[i].raw();
        points.push(*point);
        i += 1;
    }
    assert(encodings(points@) =~= ring_view(ring@));
    points
}

/// Derives the prover key for the member at `index` of `ring`. A ring with
/// more keys than the context was built for is refused, and so is an index
/// that addresses no member.
pub fn prover_key<'a>(ctx: &'a RingContext, ring: &'a Vec<Public>, index: usize) -> (r: Result<
    ProverKey<'a>,
    Error,
>)
    ensures
        match r {
            Ok(key) => index < ring@.len() <= ctx.spec_max_size() && key.spec_context() == *ctx
                && key.spec_ring() == ring@ && key.spec_index() == index && key.wf(),
            Err(e) => if ring@.len() > ctx.spec_max_size() {
                e == Error::RingTooLarge
            } else {
                e == Error::IndexOutOfBounds && index >= ring@.len()
            },
        },
{
    if ring.len() > ctx.max_size() {
        return Err(Error::RingTooLarge);
    }
    if index >= ring.len() {
        return Err(Error::IndexOutOfBounds);
    }
    Ok(ProverKey { ctx, ring, index })
}

/// Derives the verifier key of `ring`: a function of the context's size and
/// seed and of the keys in their order. A ring with more keys than the
/// context was built for is refused.
pub fn verifier_key(ctx: &RingContext, ring: &Vec<Public>) -> (r: Result<VerifierKey, Error>)
    ensures
        match r {
            Ok(key) => ring@.len() <= ctx.spec_max_size() && is_verifier_key_of(key, *ctx, ring@)
                && key.kzg.wf() && key.commitment.wf(),
            Err(e) => e == Error::RingTooLarge && ring@.len() > ctx.spec_max_size(),
        },
{
    if ring.len() > ctx.max_size() {
        return Err(Error::RingTooLarge);
    }
    let points = ring_points(ring);
    let commitment = RingCommitment { bytes: commit_ring(ctx, &points) };
    Ok(VerifierKey { kzg: ctx.constant_component(), commitment })
}

/// The commitment of a verifier key: the part that the ring fixes.
pub fn commitment_of(key: &VerifierKey) -> (r: RingCommitment)
    ensures
        r == key.commitment,
{
    key.commitment
}

/// Puts a verifier key together from a ring's commitment and the constant
/// part of the context, without indexing the ring again.
pub fn rebuild_verifier_key(commitment: RingCommitment, constant: KzgVerifierKey) -> (r:
    VerifierKey)
    ensures
        r == rebuilt(commitment, constant),
{
    VerifierKey { kzg: constant, commitment }
}

/// Proves that `output` belongs to `input` under the secret key, bound to
/// `aux_data`, and that the key is a member of the prover key's ring. The
/// ring member at the prover key's index has to be the public key of
/// `secret`: the backend proves membership only for a key that the prover
/// holds. [`try_ring_prove`] tests that first.
///
/// The first part of the proof, the Pedersen proof under a blinded key, is
/// a function of the first four arguments. The second part, the membership
/// proof, is blinded afresh on every call; whichever proof comes back is in
/// the backend's encoding.
pub fn ring_prove(
    secret: &Secret,
    input: &Input,
    output: &Output,
    aux_data: &[u8],
    key: &ProverKey,
) -> (r: RingProof)
    requires
        key.is_key_of(*secret),
    ensures
        r.wf(),
        pedersen_part(r@) == pedersen_proof(secret@, input@, output@, aux_data@),
{
    proof {
        use_type_invariant(key);
    }
    let points = ring_points(key.ring);
    let bytes = prove_ring(
        key.ctx,
        &points,
        key.index,
        secret.raw(),
        input.raw(),
        output.raw(),
        aux_data,
    );
    RingProof { bytes }
}

/// Proves as [`ring_prove`] does, where the ring member at the prover key's
/// index is the public key of `secret`, and refuses the secret key of
/// another.
pub fn try_ring_prove(
    secret: &Secret,
    input: &Input,
    output: &Output,
    aux_data: &[u8],
    key: &ProverKey,
) -> (r: Result<RingProof, Error>)
    ensures
        match r {
            Ok(proof) => key.is_key_of(*secret) && proof.wf() && pedersen_part(proof@)
                == pedersen_proof(secret@, input@, output@, aux_data@),
            Err(e) => e == Error::KeyMismatch && !key.is_key_of(*secret),
        },
{
    let public = public_of(secret);
    let member = key.member();
    if same_point(public.raw(), member.raw()) {
        Ok(ring_prove(secret, input, output, aux_data, key))
    } else {
        Err(Error::KeyMismatch)
    }
}

/// Checks a ring proof against a verifier key, on the proof domain of the
/// context. A proof that does not fit the other arguments gives `false`.
pub fn ring_verify(
    ctx: &RingContext,
    input: &Input,
    output: &Output,
    aux_data: &[u8],
    proof: &RingProof,
    key: &VerifierKey,
) -> (r: bool)
    ensures
        r == ring_accepts(ctx.spec_max_size(), *key, input@, output@, aux_data@, proof@),
{
    verify_ring(
        ctx,
        key.kzg.raw(),
        key.commitment.raw(),
        input.raw(),
        output.raw(),
        aux_data,
        proof.raw(),
    )
}

/// Reading the encoding of a ring proof gives the proof back.
pub proof fn lemma_ring_proof_round_trip(proof: RingProof)
    requires
        proof.wf(),
    ensures
        ring_decode(proof@) == Some(proof@),
{
}

/// Reading the encoding of a ring commitment gives the commitment back.
pub proof fn lemma_commitment_round_trip(commitment: RingCommitment)
    requires
        commitment.wf(),
    ensures
        ring_commitment_decode(commitment@) == Some(commitment@),
{
}

/// Reading the encoding of the constant part of a verifier key gives it
/// back.
pub proof fn lemma_constant_round_trip(constant: KzgVerifierKey)
    requires
        constant.wf(),
    ensures
        kzg_decode(constant@) == Some(constant@),
{
}

/// Two verifier keys derived from one context and one ring are the same
/// key.
pub proof fn lemma_verifier_key_is_determined(
    ctx: RingContext,
    ring: Seq<Public>,
    first: VerifierKey,
    second: VerifierKey,
)
    requires
        is_verifier_key_of(first, ctx, ring),
        is_verifier_key_of(second, ctx, ring),
    ensures
        first.kzg@ == second.kzg@,
        first.commitment@ == second.commitment@,
{
}

/// The verifier key rebuilt from the commitment of a ring's verifier key
/// and the constant part of the context accepts exactly the proofs that
/// the ring's verifier key accepts.
pub proof fn lemma_rebuilt_key_accepts_the_same(
    ctx: RingContext,
    ring: Seq<Public>,
    key: VerifierKey,
    constant: KzgVerifierKey,
    input: Seq<u8>,
    output: Seq<u8>,
    aux: Seq<u8>,
    proof: Seq<u8>,
)
    requires
        is_verifier_key_of(key, ctx, ring),
        constant@ == kzg_key(ctx.spec_max_size(), ctx.spec_seed()),
    ensures
        rebuilt(key.commitment, constant).kzg@ == key.kzg@,
        rebuilt(key.commitment, constant).commitment@ == key.commitment@,
        ring_accepts(
            ctx.spec_max_size(),
            rebuilt(key.commitment, constant),
            input,
            output,
            aux,
            proof,
        ) == ring_accepts(ctx.spec_max_size(), key, input, output, aux, proof),
{
}

/// The padding point of one context is the padding point of any other,
/// whatever their sizes and seeds.
pub proof fn lemma_padding_is_shared(first: RingContext, second: RingContext)
    ensures
        padding_of(first) == padding_of(second),
{
}

} // verus!
