//! The fixed points of the suite, each checked against the seed it was
//! generated from, in both forms of the curve.

use crate::backend::curve::hash_to_point;
use crate::backend::curve::point_from_data;
use crate::backend::ring::padding_encoding;
use crate::backend::suite::accumulator_encoding;
use crate::backend::suite::blake2b;
use crate::backend::suite::blake2b_digest;
use crate::backend::suite::blinding_encoding;
use crate::backend::suite::edwards_accumulator_base;
use crate::backend::suite::edwards_blinding_base;
use crate::backend::suite::edwards_to_weierstrass;
use crate::backend::suite::map_to_edwards;
use crate::backend::suite::map_to_weierstrass;
use crate::backend::suite::seed_weierstrass_point;
use crate::backend::suite::weierstrass_accumulator_base;
use crate::backend::suite::weierstrass_accumulator_encoding;
use crate::backend::suite::weierstrass_blinding_base;
use crate::backend::suite::weierstrass_blinding_encoding;
use crate::backend::suite::weierstrass_hash_to_point;
use crate::backend::suite::weierstrass_padding;
use crate::backend::suite::weierstrass_padding_encoding;
use crate::backend::suite::weierstrass_point_from_data;
use crate::backend::suite::weierstrass_point_from_seed;
use crate::backend::suite::weierstrass_to_edwards;
use crate::backend::text::hex_encode;
use crate::backend::text::hex_string;
use crate::error::Error;
use crate::ring::padding_point;
use vstd::prelude::*;
use vstd::slice::slice_to_vec;

verus! {

/// The form in which the curve is written.
#[derive(Clone, Copy, Debug, PartialEq, Eq, Structural)]
pub enum CurveForm {
    /// Twisted Edwards, with points encoded in 32 bytes.
    TwistedEdwards,
    /// Short Weierstrass, with points encoded in 33 bytes.
    ShortWeierstrass,
}

/// The three fixed points of a suite, encoded.
#[derive(Clone, Debug, PartialEq, Eq)]
pub struct SuitePoints {
    pub blinding_base: Vec<u8>,
    pub accumulator_base: Vec<u8>,
    pub padding: Vec<u8>,
}

/// A padding point derived from a seed string, encoded in both forms.
#[derive(Clone, Debug, PartialEq, Eq)]
pub struct PaddingPoints {
    pub weierstrass: Vec<u8>,
    pub edwards: Vec<u8>,
}

/// The point that the suite of a form hashes `data` to.
pub open spec fn suite_hash(form: CurveForm, data: Seq<u8>) -> Option<Seq<u8>> {
    match form {
        CurveForm::TwistedEdwards => hash_to_point(data),
        CurveForm::ShortWeierstrass => weierstrass_hash_to_point(data),
    }
}

/// The encoded blinding base of a form.
pub open spec fn blinding_base_of(form: CurveForm) -> Seq<u8> {
    match form {
        CurveForm::TwistedEdwards => blinding_encoding(),
        CurveForm::ShortWeierstrass => weierstrass_blinding_encoding(),
    }
}

/// The encoded accumulator base of a form.
pub open spec fn accumulator_base_of(form: CurveForm) -> Seq<u8> {
    match form {
        CurveForm::TwistedEdwards => accumulator_encoding(),
        CurveForm::ShortWeierstrass => weierstrass_accumulator_encoding(),
    }
}

/// The encoded padding point of a form.
pub open spec fn padding_point_of(form: CurveForm) -> Seq<u8> {
    match form {
        CurveForm::TwistedEdwards => padding_encoding(),
        CurveForm::ShortWeierstrass => weierstrass_padding_encoding(),
    }
}

/// What generating a point from a seed gives: the point that the seed is
/// hashed to, where there is one and it is the expected point.
pub open spec fn generated_point(form: CurveForm, seed: Seq<u8>, expected: Seq<u8>) -> Result<
    Seq<u8>,
    Error,
> {
    match suite_hash(form, seed) {
        None => Err(Error::InputDerivation),
        Some(point) => if point == expected {
            Ok(point)
        } else {
            Err(Error::PointMismatch)
        },
    }
}

/// What generating the three fixed points gives: the three points, or the
/// error of the first that fails, blinding base first, padding last.
pub open spec fn generated_points(
    form: CurveForm,
    blinding_seed: Seq<u8>,
    accumulator_seed: Seq<u8>,
    padding_seed: Seq<u8>,
) -> Result<(Seq<u8>, Seq<u8>, Seq<u8>), Error> {
    match generated_point(form, blinding_seed, blinding_base_of(form)) {
        Err(e) => Err(e),
        Ok(blinding) => match generated_point(form, accumulator_seed, accumulator_base_of(form)) {
            Err(e) => Err(e),
            Ok(accumulator) => match generated_point(form, padding_seed, padding_point_of(form)) {
                Err(e) => Err(e),
                Ok(padding) => Ok((blinding, accumulator, padding)),
            },
        },
    }
}

/// What deriving a padding point from a seed string gives: the point whose
/// first coordinate is the digest of the string, in short Weierstrass and
/// in twisted Edwards form, where the point exists, both maps are defined
/// on it and mapping there and back gives the same point.
pub open spec fn derived_padding(seed_string: Seq<u8>) -> Result<(Seq<u8>, Seq<u8>), Error> {
    match seed_weierstrass_point(blake2b(seed_string)) {
        None => Err(Error::InputDerivation),
        Some(weierstrass) => match weierstrass_to_edwards(weierstrass) {
            None => Err(Error::CurveMapping),
            Some(edwards) => match edwards_to_weierstrass(edwards) {
                None => Err(Error::CurveMapping),
                Some(back) => if back == weierstrass {
                    Ok((weierstrass, edwards))
                } else {
                    Err(Error::PointMismatch)
                },
            },
        },
    }
}

/// Whether two byte strings are the same.
pub fn same_bytes(a: &[u8], b: &[u8]) -> (r: bool)
    ensures
        r == (a@ == b@),
{
    if a.len() != b.len() {
        return false;
    }
    let mut i: usize = 0;
    while i < a.len()
        invariant
            a@.len() == b@.len(),
            i <= a@.len(),
            forall|j: int| 0 <= j < i ==> a@[j] == b@[j],
        decreases a@.len() - i,
    {
        if a[i] != b[i] {
            return false;
        }
        i += 1;
    }
    assert(a@ =~= b@);
    true
}

/// The encoded blinding base of the Pedersen commitment.
pub fn blinding_base(form: CurveForm) -> (r: Vec<u8>)
    ensures
        r@ == blinding_base_of(form),
{
    match form {
        CurveForm::TwistedEdwards => edwards_blinding_base(),
        CurveForm::ShortWeierstrass => weierstrass_blinding_base(),
    }
}

/// The encoded accumulator base of the ring proof.
pub fn accumulator_base(form: CurveForm) -> (r: Vec<u8>)
    ensures
        r@ == accumulator_base_of(form),
{
    match form {
        CurveForm::TwistedEdwards => edwards_accumulator_base(),
        CurveForm::ShortWeierstrass => weierstrass_accumulator_base(),
    }
}

/// The encoded padding point of the ring proof.
pub fn padding(form: CurveForm) -> (r: Vec<u8>)
    ensures
        r@ == padding_point_of(form),
{
    match form {
        CurveForm::TwistedEdwards => padding_point().to_bytes(),
        CurveForm::ShortWeierstrass => weierstrass_padding(),
    }
}

/// The encoded point that the suite of a form hashes `seed` to.
pub fn point_of_seed(form: CurveForm, seed: &[u8]) -> (r: Option<Vec<u8>>)
    ensures
        match r {
            Some(point) => suite_hash(form, seed@) == Some(point@),
            None => suite_hash(form, seed@) is None,
        },
{
    match form {
        CurveForm::TwistedEdwards => match point_from_data(seed) {
            Some(point) => Some(slice_to_vec(point.as_slice())),
            None => None,
        },
        CurveForm::ShortWeierstrass => weierstrass_point_from_data(seed),
    }
}

/// Generates a fixed point from its seed and holds it against the point
/// that the suite uses. A seed that is hashed to no point and a seed that
/// is hashed to another point are refused.
pub fn generate_point(form: CurveForm, seed: &[u8], expected: &[u8]) -> (r: Result<Vec<u8>, Error>)
    ensures
        match r {
            Ok(point) => generated_point(form, seed@, expected@) == Ok::<Seq<u8>, Error>(point@),
            Err(e) => generated_point(form, seed@, expected@) == Err::<Seq<u8>, Error>(e),
        },
{
    match point_of_seed(form, seed) {
        None => Err(Error::InputDerivation),
        Some(point) => {
            if same_bytes(point.as_slice(), expected) {
                Ok(point)
            } else {
                Err(Error::PointMismatch)
            }
        },
    }
}

/// Generates the three fixed points of a suite from their seeds and holds
/// each against the point that the suite uses.
pub fn generate_points(
    form: CurveForm,
    blinding_seed: &[u8],
    accumulator_seed: &[u8],
    padding_seed: &[u8],
) -> (r: Result<SuitePoints, Error>)
    ensures
        match r {
            Ok(points) => generated_points(form, blinding_seed@, accumulator_seed@, padding_seed@)
                == Ok::<(Seq<u8>, Seq<u8>, Seq<u8>), Error>(
                (points.blinding_base@, points.accumulator_base@, points.padding@),
            ),
            Err(e) => generated_points(form, blinding_seed@, accumulator_seed@, padding_seed@)
                == Err::<(Seq<u8>, Seq<u8>, Seq<u8>), Error>(e),
        },
{
    let expected = blinding_base(form);
    let blinding_base = match generate_point(form, blinding_seed, expected.as_slice()) {
        Ok(point) => point,
        Err(e) => {
            return Err(e);
        },
    };
    let expected = accumulator_base(form);
    let accumulator_base = match generate_point(form, accumulator_seed, expected.as_slice()) {
        Ok(point) => point,
        Err(e) => {
            return Err(e);
        },
    };
    let expected = padding(form);
    let padding = match generate_point(form, padding_seed, expected.as_slice()) {
        Ok(point) => point,
        Err(e) => {
            return Err(e);
        },
    };
    Ok(SuitePoints { blinding_base, accumulator_base, padding })
}

/// The digest of a seed string from which a padding point is derived.
pub fn seed_digest(seed_string: &[u8]) -> (r: Vec<u8>)
    ensures
        r@ == blake2b(seed_string@),
        r@.len() == 64,
{
    blake2b_digest(seed_string)
}

/// Derives a padding point from a seed string: the digest of the string
/// gives the first coordinate of a short Weierstrass point, which is
/// mapped to twisted Edwards form and back. A digest that is no
/// coordinate, a point on which a map is not defined, and a point that
/// does not come back the same are refused.
pub fn derive_padding(seed_string: &[u8]) -> (r: Result<PaddingPoints, Error>)
    ensures
        match r {
            Ok(points) => derived_padding(seed_string@) == Ok::<(Seq<u8>, Seq<u8>), Error>(
                (points.weierstrass@, points.edwards@),
            ),
            Err(e) => derived_padding(seed_string@) == Err::<(Seq<u8>, Seq<u8>), Error>(e),
        },
{
    let digest = blake2b_digest(seed_string);
    let weierstrass = match weierstrass_point_from_seed(digest.as_slice()) {
        Some(point) => point,
        None => {
            return Err(Error::InputDerivation);
        },
    };
    let edwards = match map_to_edwards(weierstrass.as_slice()) {
        Some(point) => point,
        None => {
            return Err(Error::CurveMapping);
        },
    };
    let back = match map_to_weierstrass(edwards.as_slice()) {
        Some(point) => point,
        None => {
            return Err(Error::CurveMapping);
        },
    };
    if !same_bytes(back.as_slice(), weierstrass.as_slice()) {
        return Err(Error::PointMismatch);
    }
    Ok(PaddingPoints { weierstrass, edwards })
}

/// Whether derived padding points are the ones that the suites use.
pub fn is_suite_padding(points: &PaddingPoints) -> (r: bool)
    ensures
        r == (points.edwards@ == padding_point_of(CurveForm::TwistedEdwards) && points.weierstrass@
            == padding_point_of(CurveForm::ShortWeierstrass)),
{
    let edwards = padding(CurveForm::TwistedEdwards);
    let weierstrass = padding(CurveForm::ShortWeierstrass);
    same_bytes(points.edwards.as_slice(), edwards.as_slice()) && same_bytes(
        points.weierstrass.as_slice(),
        weierstrass.as_slice(),
    )
}

/// The hexadecimal text of an encoded point, as it is shown to people.
pub fn encoded_hex(point: &[u8]) -> (r: String)
    ensures
        r@ == hex_string(point@),
{
    hex_encode(point)
}

} // verus!
