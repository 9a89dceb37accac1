//! Secret and public keys, input and output points, and the ticket value of
//! an output.

use crate::backend::curve::decode_point;
use crate::backend::curve::hash_output;
use crate::backend::curve::hash_to_point;
use crate::backend::curve::identity_encoding;
use crate::backend::curve::is_point;
use crate::backend::curve::is_public_key;
use crate::backend::curve::is_secret_scalar;
use crate::backend::curve::output_hash;
use crate::backend::curve::output_point;
use crate::backend::curve::point_decode;
use crate::backend::curve::point_from_data;
use crate::backend::curve::public_from_scalar;
use crate::backend::curve::scalar_from_seed;
use crate::backend::curve::scalar_public;
use crate::backend::curve::seed_scalar;
use crate::backend::curve::vrf_output;
use crate::backend::curve::POINT_LEN;
use crate::backend::text::hex_encode;
use crate::backend::text::hex_string;
use crate::error::Error;
use vstd::prelude::*;
use vstd::slice::slice_subrange;
use vstd::slice::slice_to_vec;

verus! {

/// Bytes of an output's hash that make its ticket value.
pub const TICKET_LEN: usize = 32;

/// A secret key: the scalar of a seed. It has no encoding outside the
/// library, and it is neither printed, compared nor copied.
pub struct Secret {
    pub(crate) scalar: [u8; 32],
}

/// A public key: a point of the group other than the neutral element.
#[derive(Clone, Copy, Debug, PartialEq, Eq)]
pub struct Public {
    pub(crate) bytes: [u8; 32],
}

/// A point that application data was hashed to.
#[derive(Clone, Copy, Debug, PartialEq, Eq)]
pub struct Input {
    pub(crate) bytes: [u8; 32],
}

/// The product of a secret key and an input point.
#[derive(Clone, Copy, Debug, PartialEq, Eq)]
pub struct Output {
    pub(crate) bytes: [u8; 32],
}

impl View for Secret {
    type V = Seq<u8>;

    /// The encoded scalar.
    closed spec fn view(&self) -> Seq<u8> {
        self.scalar@
    }
}

impl View for Public {
    type V = Seq<u8>;

    /// The compressed encoding of the point.
    closed spec fn view(&self) -> Seq<u8> {
        self.bytes@
    }
}

impl View for Input {
    type V = Seq<u8>;

    /// The compressed encoding of the point.
    closed spec fn view(&self) -> Seq<u8> {
        self.bytes@
    }
}

impl View for Output {
    type V = Seq<u8>;

    /// The compressed encoding of the point.
    closed spec fn view(&self) -> Seq<u8> {
        self.bytes@
    }
}

/// The public key that `bytes` encode: `bytes` is a point's encoding, of the
/// right length, and the point is not the neutral element.
pub open spec fn public_decode(bytes: Seq<u8>) -> Option<Seq<u8>> {
    if bytes.len() == POINT_LEN && point_decode(bytes) is Some && point_decode(bytes)->0
        != identity_encoding() {
        point_decode(bytes)
    } else {
        None
    }
}

/// The output point that `bytes` encode.
pub open spec fn output_decode(bytes: Seq<u8>) -> Option<Seq<u8>> {
    if bytes.len() == POINT_LEN {
        point_decode(bytes)
    } else {
        None
    }
}

/// The ticket value of an encoded output: the leading bytes of its hash.
pub open spec fn output_ticket(output: Seq<u8>) -> Seq<u8> {
    output_hash(output).subrange(0, TICKET_LEN as int)
}

/// Whether `bytes` encode the neutral element.
pub(crate) fn is_identity(bytes: &[u8; 32]) -> (r: bool)
    ensures
        r == (bytes@ == identity_encoding()),
{
    let mut i: usize = 0;
    while i < 32
        invariant
            i <= 32,
            forall|j: int| 0 <= j < i ==> bytes@[j] == identity_encoding()[j],
        decreases 32 - i,
    {
        let expected: u8 = if i == 0 { 1 } else { 0 };
        if bytes[i] != expected {
            return false;
        }
        i += 1;
    }
    assert(bytes@ =~= identity_encoding());
    true
}

/// Whether two encoded points are the same.
pub(crate) fn same_point(a: &[u8; 32], b: &[u8; 32]) -> (r: bool)
    ensures
        r == (a@ == b@),
{
    let mut i: usize = 0;
    while i < 32
        invariant
            i <= 32,
            forall|j: int| 0 <= j < i ==> a@[j] == b@[j],
        decreases 32 - i,
    {
        if a[i] != b[i] {
            return false;
        }
        i += 1;
    }
    assert(a@ =~= b@);
    true
}

impl Secret {
    #[verifier::type_invariant]
    spec fn inv(self) -> bool {
        self.wf()
    }

    /// The scalar is the scalar of some seed.
    pub open spec fn wf(&self) -> bool {
        is_secret_scalar(self@)
    }

    /// The encoded scalar, for the backend.
    pub(crate) fn raw(&self) -> (r: &[u8; 32])
        ensures
            r@ == self@,
            is_secret_scalar(r@),
    {
        proof {
            use_type_invariant(self);
        }
        &self.scalar
    }
}

impl Public {
    #[verifier::type_invariant]
    spec fn inv(self) -> bool {
        self.wf()
    }

    /// The bytes are the backend's encoding of a point other than the
    /// neutral element.
    pub open spec fn wf(&self) -> bool {
        is_public_key(self@)
    }

    /// Reads a public key from its 32 byte encoding. Bytes of another
    /// length, bytes that encode no point of the group, and the encoding of
    /// the neutral element are refused.
    pub fn from_bytes(bytes: &[u8]) -> (r: Result<Public, Error>)
        ensures
            match r {
                Ok(p) => public_decode(bytes@) == Some(p@) && p.wf(),
                Err(e) => e == Error::Decode && public_decode(bytes@) is None,
            },
    {
        if bytes.len() != POINT_LEN {
            return Err(Error::Decode);
        }
        match decode_point(bytes) {
            Some(point) => {
                if is_identity(&point) {
                    Err(Error::Decode)
                } else {
                    Ok(Public { bytes: point })
                }
            },
            None => Err(Error::Decode),
        }
    }

    /// The 32 byte encoding of the key.
    pub fn to_bytes(&self) -> (r: Vec<u8>)
        ensures
            r@ == self@,
    {
        slice_to_vec(self.bytes.as_slice())
    }

    /// The key of an encoding that the backend wrote.
    pub(crate) fn from_valid(bytes: [u8; 32]) -> (r: Public)
        requires
            is_public_key(bytes@),
        ensures
            r@ == bytes@,
            r.wf(),
    {
        Public { bytes }
    }

    /// The encoded point, for the backend.
    pub(crate) fn raw(&self) -> (r: &[u8; 32])
        ensures
            r@ == self@,
            is_public_key(r@),
    {
        proof {
            use_type_invariant(self);
        }
        &self.bytes
    }
}

impl Input {
    #[verifier::type_invariant]
    spec fn inv(self) -> bool {
        self.wf()
    }

    /// The bytes are the backend's encoding of a point.
    pub open spec fn wf(&self) -> bool {
        is_point(self@)
    }

    /// The 32 byte encoding of the point.
    pub fn to_bytes(&self) -> (r: Vec<u8>)
        ensures
            r@ == self@,
    {
        slice_to_vec(self.bytes.as_slice())
    }

    /// The encoded point, for the backend.
    pub(crate) fn raw(&self) -> (r: &[u8; 32])
        ensures
            r@ == self@,
            is_point(r@),
    {
        proof {
            use_type_invariant(self);
        }
        &self.bytes
    }
}

impl Output {
    #[verifier::type_invariant]
    spec fn inv(self) -> bool {
        self.wf()
    }

    /// The bytes are the backend's encoding of a point.
    pub open spec fn wf(&self) -> bool {
        is_point(self@)
    }

    /// Reads an output point from its 32 byte encoding. Bytes of another
    /// length and bytes that encode no point of the group are refused.
    pub fn from_bytes(bytes: &[u8]) -> (r: Result<Output, Error>)
        ensures
            match r {
                Ok(o) => output_decode(bytes@) == Some(o@) && o.wf(),
                Err(e) => e == Error::Decode && output_decode(bytes@) is None,
            },
    {
        if bytes.len() != POINT_LEN {
            return Err(Error::Decode);
        }
        match decode_point(bytes) {
            Some(point) => Ok(Output { bytes: point }),
            None => Err(Error::Decode),
        }
    }

    /// The 32 byte encoding of the point.
    pub fn to_bytes(&self) -> (r: Vec<u8>)
        ensures
            r@ == self@,
    {
        slice_to_vec(self.bytes.as_slice())
    }

    /// The output of an encoding that the backend wrote.
    pub(crate) fn from_valid(bytes: [u8; 32]) -> (r: Output)
        requires
            is_point(bytes@),
        ensures
            r@ == bytes@,
            r.wf(),
    {
        Output { bytes }
    }

    /// The encoded point, for the backend.
    pub(crate) fn raw(&self) -> (r: &[u8; 32])
        ensures
            r@ == self@,
            is_point(r@),
    {
        proof {
            use_type_invariant(self);
        }
        &self.bytes
    }
}

/// Derives the secret key of a seed. Every seed has one, and the same seed
/// always has the same.
pub fn derive_secret(seed: &[u8]) -> (r: Secret)
    ensures
        r@ == seed_scalar(seed@),
        r.wf(),
{
    let scalar = scalar_from_seed(seed);
    Secret { scalar }
}

/// The public key of a secret key.
pub fn public_of(secret: &Secret) -> (r: Public)
    ensures
        r@ == scalar_public(secret@),
        r.wf(),
{
    let bytes = public_from_scalar(secret.raw());
    Public { bytes }
}

/// Hashes application data to an input point. `None` where the backend maps
/// the data to no point.
pub fn input_from_data(data: &[u8]) -> (r: Option<Input>)
    ensures
        match r {
            Some(input) => hash_to_point(data@) == Some(input@) && input.wf(),
            None => hash_to_point(data@) is None,
        },
{
    match point_from_data(data) {
        Some(bytes) => Some(Input { bytes }),
        None => None,
    }
}

/// The output point of a secret key on an input point.
pub fn output_of(secret: &Secret, input: &Input) -> (r: Output)
    ensures
        r@ == vrf_output(secret@, input@),
        r.wf(),
{
    let bytes = output_point(secret.raw(), input.raw());
    Output { bytes }
}

/// The ticket value of an output: the first 32 bytes of the output's hash.
/// It depends on the output point alone, not on how the output was proved.
pub fn ticket_value(output: &Output) -> (r: Vec<u8>)
    ensures
        r@ == output_ticket(output@),
        r@.len() == TICKET_LEN,
{
    let hash = hash_output(output.raw());
    slice_to_vec(slice_subrange(hash.as_slice(), 0, TICKET_LEN))
}

/// The ticket value of an output as hexadecimal text, as it is shown to
/// people.
pub fn ticket_id(output: &Output) -> (r: String)
    ensures
        r@ == hex_string(output_ticket(output@)),
{
    let ticket = ticket_value(output);
    hex_encode(ticket.as_slice())
}

/// The key pairs derived from one seed have one public key.
pub proof fn lemma_public_key_is_determined(
    seed: Seq<u8>,
    first: Secret,
    second: Secret,
    first_public: Public,
    second_public: Public,
)
    requires
        first@ == seed_scalar(seed),
        second@ == seed_scalar(seed),
        first_public@ == scalar_public(first@),
        second_public@ == scalar_public(second@),
    ensures
        first@ == second@,
        first_public@ == second_public@,
{
}

/// The same data hash to the same input point, and a secret key has one
/// output on it.
pub proof fn lemma_output_is_determined(
    secret: Secret,
    data: Seq<u8>,
    first_input: Input,
    second_input: Input,
    first_output: Output,
    second_output: Output,
)
    requires
        hash_to_point(data) == Some(first_input@),
        hash_to_point(data) == Some(second_input@),
        first_output@ == vrf_output(secret@, first_input@),
        second_output@ == vrf_output(secret@, second_input@),
    ensures
        first_input@ == second_input@,
        first_output@ == second_output@,
{
}

/// Outputs with one encoding have one ticket value, whichever protocol
/// carried them.
pub proof fn lemma_ticket_depends_on_output_alone(first: Output, second: Output)
    requires
        first@ == second@,
    ensures
        output_ticket(first@) == output_ticket(second@),
{
}

/// Reading the encoding of a public key gives the key back.
pub proof fn lemma_public_round_trip(public: Public)
    requires
        public.wf(),
    ensures
        public_decode(public@) == Some(public@),
{
}

/// Reading the encoding of an output gives the output back.
pub proof fn lemma_output_round_trip(output: Output)
    requires
        output.wf(),
    ensures
        output_decode(output@) == Some(output@),
{
}

} // verus!
