//! Shared vocabulary of the snarkjs interchange format: curve identifiers,
//! field elements and curve points as the encoder sees them, and the
//! point-to-decimal-string encoders.
//!
//! A field element is carried as the big-endian byte string of its canonical
//! unsigned integer representative; an affine curve point is a pair of such
//! elements, over the base field (first group) or over its degree-2 extension
//! (second group). The point at infinity has no affine coordinates and is
//! refused by the encoders.

use vstd::prelude::*;
use vstd::string::*;

use crate::decimal::{bytes_value, dec_of_bytes, dec_str, is_decimal, lemma_dec_str_injective,
    lemma_dec_str_is_decimal};

verus! {

/// Identifier of the pairing-friendly curve family in use, in the fixed
/// vocabulary of the snarkjs schema.
#[derive(Clone, Copy, PartialEq, Eq, Structural, Debug)]
pub enum CurveTag {
    Bn128,
    Bls12381,
}

impl CurveTag {
    /// The identifier string's characters.
    pub open spec fn spec_name(&self) -> Seq<char> {
        match self {
            CurveTag::Bn128 => "bn128"@,
            CurveTag::Bls12381 => "bls12381"@,
        }
    }

    /// The identifier string the snarkjs schema expects for this curve.
    pub fn name(&self) -> (r: &'static str)
        ensures
            r@ == self.spec_name(),
    {
        match self {
            CurveTag::Bn128 => "bn128",
            CurveTag::Bls12381 => "bls12381",
        }
    }
}

/// The two curve identifiers are distinct, so a document built for one curve
/// never carries the other curve's identifier.
pub proof fn lemma_curve_names_distinct()
    ensures
        CurveTag::Bn128.spec_name() != CurveTag::Bls12381.spec_name(),
{
    reveal_strlit("bn128");
    reveal_strlit("bls12381");
    assert("bn128"@.len() == 5);
    assert("bls12381"@.len() == 8);
}

/// Why a value cannot be encoded.
#[derive(Clone, Copy, PartialEq, Eq, Structural, Debug)]
pub enum EncodeError {
    /// The point at infinity was passed for encoding; the snarkjs schema has
    /// no representation for it.
    UnrepresentablePoint,
}

/// A field element: the big-endian byte string of its canonical unsigned
/// integer representative in `[0, modulus)`.
pub struct Fe {
    pub bytes: Vec<u8>,
}

impl Fe {
    /// The integer value the element denotes.
    pub open spec fn value(&self) -> nat {
        bytes_value(self.bytes@)
    }
}

/// An element of the degree-2 extension field, decomposed into its two
/// base-field components in the universally agreed order: first `c0`,
/// then `c1`.
pub struct Fp2 {
    pub c0: Fe,
    pub c1: Fe,
}

impl Fp2 {
    /// The two base-field components, in their fixed order.
    pub fn c0_c1(&self) -> (r: (&Fe, &Fe))
        ensures
            *r.0 == self.c0,
            *r.1 == self.c1,
    {
        (&self.c0, &self.c1)
    }
}

/// An affine point of the first group (base-field coordinates), or the point
/// at infinity.
pub enum G1Point {
    Infinity,
    Affine { x: Fe, y: Fe },
}

impl G1Point {
    /// The x coordinate's integer value (meaningful for affine points).
    pub open spec fn spec_x(&self) -> nat {
        match self {
            G1Point::Affine { x, y } => x.value(),
            G1Point::Infinity => 0,
        }
    }

    /// The y coordinate's integer value (meaningful for affine points).
    pub open spec fn spec_y(&self) -> nat {
        match self {
            G1Point::Affine { x, y } => y.value(),
            G1Point::Infinity => 0,
        }
    }
}

/// An affine point of the second group (extension-field coordinates), or the
/// point at infinity.
pub enum G2Point {
    Infinity,
    Affine { x: Fp2, y: Fp2 },
}

impl G2Point {
    /// The first component of the x coordinate (meaningful for affine points).
    pub open spec fn spec_x0(&self) -> nat {
        match self {
            G2Point::Affine { x, y } => x.c0.value(),
            G2Point::Infinity => 0,
        }
    }

    /// The second component of the x coordinate.
    pub open spec fn spec_x1(&self) -> nat {
        match self {
            G2Point::Affine { x, y } => x.c1.value(),
            G2Point::Infinity => 0,
        }
    }

    /// The first component of the y coordinate.
    pub open spec fn spec_y0(&self) -> nat {
        match self {
            G2Point::Affine { x, y } => y.c0.value(),
            G2Point::Infinity => 0,
        }
    }

    /// The second component of the y coordinate.
    pub open spec fn spec_y1(&self) -> nat {
        match self {
            G2Point::Affine { x, y } => y.c1.value(),
            G2Point::Infinity => 0,
        }
    }
}

/// Copy of a byte vector.
fn copy_bytes(src: &Vec<u8>) -> (r: Vec<u8>)
    ensures
        r@ == src@,
{
    let mut r: Vec<u8> = Vec::new();
    let mut i: usize = 0;
    while i < src.len()
        invariant
            i <= src@.len(),
            r@ =~= src@.take(i as int),
        decreases src@.len() - i,
    {
        r.push(src[i]);
        proof {
            assert(r@ =~= src@.take(i + 1 as int));
        }
        i += 1;
    }
    proof {
        assert(src@.take(src@.len() as int) =~= src@);
    }
    r
}

/// Render a field element as its canonical unsigned decimal string: minimal
/// length, base 10, no sign, no leading zero, `"0"` for the zero element.
pub fn f_to_dec(f: &Fe) -> (r: String)
    ensures
        r@ == dec_str(f.value()),
{
    dec_of_bytes(copy_bytes(&f.bytes))
}

/// Spec-level encoding of an affine first-group point: the decimal strings of
/// its two coordinates, x first.
pub open spec fn g1_enc(x: nat, y: nat) -> Seq<Seq<char>> {
    seq![dec_str(x), dec_str(y)]
}

/// Spec-level encoding of an affine second-group point: a 2-by-2 block of
/// decimal strings, coordinate x before y and component c0 before c1.
pub open spec fn g2_enc(x0: nat, x1: nat, y0: nat, y1: nat) -> Seq<Seq<Seq<char>>> {
    seq![seq![dec_str(x0), dec_str(x1)], seq![dec_str(y0), dec_str(y1)]]
}

/// A first-group encoding is exactly two strings, each a canonical decimal
/// string.
pub proof fn lemma_g1_enc_decimal(x: nat, y: nat)
    ensures
        g1_enc(x, y).len() == 2,
        forall|i: int| 0 <= i < 2 ==> is_decimal(#[trigger] g1_enc(x, y)[i]),
{
    lemma_dec_str_is_decimal(x);
    lemma_dec_str_is_decimal(y);
    assert(g1_enc(x, y)[0] == dec_str(x));
    assert(g1_enc(x, y)[1] == dec_str(y));
}

/// A second-group encoding is exactly a 2-by-2 block of canonical decimal
/// strings.
pub proof fn lemma_g2_enc_decimal(x0: nat, x1: nat, y0: nat, y1: nat)
    ensures
        g2_enc(x0, x1, y0, y1).len() == 2,
        forall|i: int| 0 <= i < 2 ==> (#[trigger] g2_enc(x0, x1, y0, y1)[i]).len() == 2,
        forall|i: int, j: int|
            0 <= i < 2 && 0 <= j < 2 ==> is_decimal(#[trigger] g2_enc(x0, x1, y0, y1)[i][j]),
{
    lemma_dec_str_is_decimal(x0);
    lemma_dec_str_is_decimal(x1);
    lemma_dec_str_is_decimal(y0);
    lemma_dec_str_is_decimal(y1);
    assert(g2_enc(x0, x1, y0, y1)[0].len() == 2);
    assert(g2_enc(x0, x1, y0, y1)[1].len() == 2);
    assert(g2_enc(x0, x1, y0, y1)[0][0] == dec_str(x0));
    assert(g2_enc(x0, x1, y0, y1)[0][1] == dec_str(x1));
    assert(g2_enc(x0, x1, y0, y1)[1][0] == dec_str(y0));
    assert(g2_enc(x0, x1, y0, y1)[1][1] == dec_str(y1));
}

/// Swapping the two components of the x coordinate changes a second-group
/// point's encoding whenever the components differ, so the fixed component
/// order is observable in the output.
pub proof fn lemma_g2_component_order(x0: nat, x1: nat, y0: nat, y1: nat)
    requires
        x0 != x1,
    ensures
        g2_enc(x0, x1, y0, y1) != g2_enc(x1, x0, y0, y1),
{
    lemma_dec_str_injective(x0, x1);
    if g2_enc(x0, x1, y0, y1) == g2_enc(x1, x0, y0, y1) {
        assert(g2_enc(x0, x1, y0, y1)[0][0] == g2_enc(x1, x0, y0, y1)[0][0]);
    }
}

/// Encode a first-group point as `[decimal(x), decimal(y)]`; the point at
/// infinity is unrepresentable and is refused.
pub fn g1_xy(p: &G1Point) -> (r: Result<Vec<String>, EncodeError>)
    ensures
        match r {
            Ok(v) => p is Affine && v.deep_view() == g1_enc(p.spec_x(), p.spec_y()),
            Err(e) => p is Infinity && e == EncodeError::UnrepresentablePoint,
        },
{
    match p {
        G1Point::Infinity => Err(EncodeError::UnrepresentablePoint),
        G1Point::Affine { x, y } => {
            let mut v: Vec<String> = Vec::new();
            v.push(f_to_dec(x));
            v.push(f_to_dec(y));
            proof {
                assert(v.deep_view() =~= g1_enc(x.value(), y.value()));
            }
            Ok(v)
        },
    }
}

/// Encode a second-group point as `[[decimal(x.c0), decimal(x.c1)],
/// [decimal(y.c0), decimal(y.c1)]]`, preserving component order; the point at
/// infinity is unrepresentable and is refused.
pub fn g2_xyxy(p: &G2Point) -> (r: Result<Vec<Vec<String>>, EncodeError>)
    ensures
        match r {
            Ok(v) => p is Affine && v.deep_view() == g2_enc(
                p.spec_x0(),
                p.spec_x1(),
                p.spec_y0(),
                p.spec_y1(),
            ),
            Err(e) => p is Infinity && e == EncodeError::UnrepresentablePoint,
        },
{
    match p {
        G2Point::Infinity => Err(EncodeError::UnrepresentablePoint),
        G2Point::Affine { x, y } => {
            let (x0, x1) = x.c0_c1();
            let (y0, y1) = y.c0_c1();
            let mut row_x: Vec<String> = Vec::new();
            row_x.push(f_to_dec(x0));
            row_x.push(f_to_dec(x1));
            let mut row_y: Vec<String> = Vec::new();
            row_y.push(f_to_dec(y0));
            row_y.push(f_to_dec(y1));
            let mut v: Vec<Vec<String>> = Vec::new();
            v.push(row_x);
            v.push(row_y);
            proof {
                assert(v.deep_view() =~~= g2_enc(
                    x.c0.value(),
                    x.c1.value(),
                    y.c0.value(),
                    y.c1.value(),
                ));
            }
            Ok(v)
        },
    }
}

} // verus!
