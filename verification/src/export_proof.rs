//! Assembly of the snarkjs proof document: the three proof points with their
//! constant homogeneous coordinates, the curve identifier, the protocol tag,
//! and the decimal renderings of the public inputs, together with the
//! document's exact JSON text.

use vstd::prelude::*;
use vstd::string::*;

use crate::decimal::dec_str;
use crate::json::{append_quoted, append_str_array, append_str_array2, quoted, str_array,
    str_array2};
use crate::snarkjs_common::{g1_enc, g1_xy, g2_enc, g2_xyxy, CurveTag, EncodeError, Fe, G1Point,
    G2Point};

verus! {

/// The three curve points of a Groth16 proof, as the encoder sees them:
/// one second-group point framed by two first-group points.
pub struct ProofRecord {
    pub a: G1Point,
    pub b: G2Point,
    pub c: G1Point,
}

/// The snarkjs proof document.
#[allow(non_snake_case)]
#[derive(Debug)]
pub struct ProofJson {
    pub protocol: String,
    pub curve: String,
    pub pi_a: Vec<String>,
    pub pi_b: Vec<Vec<String>>,
    pub pi_c: Vec<String>,
    pub publicSignals: Vec<String>,
}

/// A first-group point's rendering in a proof document: x, y, and the
/// constant homogeneous coordinate "1".
pub open spec fn g1_with_one(x: nat, y: nat) -> Seq<Seq<char>> {
    seq![dec_str(x), dec_str(y), seq!['1']]
}

/// A second-group point's rendering in a proof document: the x and y
/// component rows and the constant homogeneous row ["1", "0"].
pub open spec fn g2_with_one_zero(x0: nat, x1: nat, y0: nat, y1: nat) -> Seq<Seq<Seq<char>>> {
    seq![
        seq![dec_str(x0), dec_str(x1)],
        seq![dec_str(y0), dec_str(y1)],
        seq![seq!['1'], seq!['0']],
    ]
}

/// The decimal renderings of the public inputs, in order.
pub open spec fn publics_enc(fes: Seq<Fe>) -> Seq<Seq<char>> {
    Seq::new(fes.len(), |i: int| dec_str(fes[i].value()))
}

/// The JSON text of a proof document with the given field contents.
pub open spec fn proof_doc_text(
    protocol: Seq<char>,
    curve: Seq<char>,
    pi_a: Seq<Seq<char>>,
    pi_b: Seq<Seq<Seq<char>>>,
    pi_c: Seq<Seq<char>>,
    publics: Seq<Seq<char>>,
) -> Seq<char> {
    "{\"protocol\":"@ + quoted(protocol) + ",\"curve\":"@ + quoted(curve) + ",\"pi_a\":"@
        + str_array(pi_a) + ",\"pi_b\":"@ + str_array2(pi_b) + ",\"pi_c\":"@ + str_array(pi_c)
        + ",\"publicSignals\":"@ + str_array(publics) + "}"@
}

/// The JSON text of a proof document.
pub open spec fn proof_json_text_of(doc: ProofJson) -> Seq<char> {
    proof_doc_text(
        doc.protocol@,
        doc.curve@,
        doc.pi_a.deep_view(),
        doc.pi_b.deep_view(),
        doc.pi_c.deep_view(),
        doc.publicSignals.deep_view(),
    )
}

/// Whether a document carries exactly the encoding of the given record,
/// public inputs and curve.
pub open spec fn is_proof_json_of(
    doc: ProofJson,
    proof: ProofRecord,
    public: Seq<Fe>,
    curve: CurveTag,
) -> bool {
    &&& doc.protocol@ == "groth16"@
    &&& doc.curve@ == curve.spec_name()
    &&& doc.pi_a.deep_view() == g1_with_one(proof.a.spec_x(), proof.a.spec_y())
    &&& doc.pi_b.deep_view() == g2_with_one_zero(
        proof.b.spec_x0(),
        proof.b.spec_x1(),
        proof.b.spec_y0(),
        proof.b.spec_y1(),
    )
    &&& doc.pi_c.deep_view() == g1_with_one(proof.c.spec_x(), proof.c.spec_y())
    &&& doc.publicSignals.deep_view() == publics_enc(public)
}

/// Render a proof document as its JSON text.
pub fn proof_json_text(doc: &ProofJson) -> (r: String)
    ensures
        r@ == proof_json_text_of(*doc),
{
    let mut out = String::new();
    out.append("{\"protocol\":");
    append_quoted(&mut out, doc.protocol.as_str());
    out.append(",\"curve\":");
    append_quoted(&mut out, doc.curve.as_str());
    out.append(",\"pi_a\":");
    append_str_array(&mut out, &doc.pi_a);
    out.append(",\"pi_b\":");
    append_str_array2(&mut out, &doc.pi_b);
    out.append(",\"pi_c\":");
    append_str_array(&mut out, &doc.pi_c);
    out.append(",\"publicSignals\":");
    append_str_array(&mut out, &doc.publicSignals);
    out.append("}");
    proof {
        assert(out@ =~= proof_json_text_of(*doc));
    }
    out
}

/// Assemble the snarkjs proof document and its JSON text from a proof record,
/// its ordered public inputs, and the curve in use. Fails exactly when one of
/// the record's points is the point at infinity, which the schema cannot
/// represent; no partial document is returned.
pub fn export_proof(proof: &ProofRecord, public: &Vec<Fe>, curve: CurveTag) -> (r: Result<
    (ProofJson, String),
    EncodeError,
>)
    ensures
        match r {
            Ok(p) => {
                &&& proof.a is Affine
                &&& proof.b is Affine
                &&& proof.c is Affine
                &&& is_proof_json_of(p.0, *proof, public@, curve)
                &&& p.1@ == proof_json_text_of(p.0)
            },
            Err(e) => {
                &&& e == EncodeError::UnrepresentablePoint
                &&& !(proof.a is Affine && proof.b is Affine && proof.c is Affine)
            },
        },
{
    let a = match g1_xy(&proof.a) {
        Ok(v) => v,
        Err(e) => return Err(e),
    };
    let b = match g2_xyxy(&proof.b) {
        Ok(v) => v,
        Err(e) => return Err(e),
    };
    let c = match g1_xy(&proof.c) {
        Ok(v) => v,
        Err(e) => return Err(e),
    };

    let mut pi_a = a;
    let ghost a_view = pi_a@;
    let ghost a_dv = pi_a.deep_view();
    proof {
        assert(a_dv.len() == 2);
        assert(a_view.len() == 2);
    }
    pi_a.push("1".to_owned());
    let mut pi_c = c;
    let ghost c_view = pi_c@;
    let ghost c_dv = pi_c.deep_view();
    proof {
        assert(c_dv.len() == 2);
        assert(c_view.len() == 2);
    }
    pi_c.push("1".to_owned());
    let mut last_row: Vec<String> = Vec::new();
    last_row.push("1".to_owned());
    last_row.push("0".to_owned());
    let ghost row_dv = last_row.deep_view();
    let mut pi_b = b;
    let ghost b_view = pi_b@;
    let ghost b_dv = pi_b.deep_view();
    proof {
        assert(b_dv.len() == 2);
        assert(b_view.len() == 2);
    }
    pi_b.push(last_row);
    proof {
        reveal_strlit("1");
        reveal_strlit("0");
        assert(row_dv =~~= seq![seq!['1'], seq!['0']]);
        assert forall|k: int| 0 <= k < 2 implies pi_a@[k].deep_view() == a_dv[k] by {
            assert(pi_a@[k] == a_view[k]);
        }
        assert(pi_a.deep_view() =~~= g1_with_one(proof.a.spec_x(), proof.a.spec_y()));
        assert forall|k: int| 0 <= k < 2 implies pi_c@[k].deep_view() == c_dv[k] by {
            assert(pi_c@[k] == c_view[k]);
        }
        assert(pi_c.deep_view() =~~= g1_with_one(proof.c.spec_x(), proof.c.spec_y()));
        assert forall|k: int| 0 <= k < 2 implies pi_b@[k].deep_view() == b_dv[k] by {
            assert(pi_b@[k] == b_view[k]);
        }
        assert(pi_b.deep_view() =~~= g2_with_one_zero(
            proof.b.spec_x0(),
            proof.b.spec_x1(),
            proof.b.spec_y0(),
            proof.b.spec_y1(),
        ));
    }

    let mut sigs: Vec<String> = Vec::new();
    let mut i: usize = 0;
    while i < public.len()
        invariant
            i <= public@.len(),
            sigs.deep_view().len() == i,
            forall|j: int| 0 <= j < i ==> sigs.deep_view()[j] == dec_str(public@[j].value()),
        decreases public@.len() - i,
    {
        let ghost prev = sigs@;
        let ghost prev_dv = sigs.deep_view();
        proof {
            assert(prev_dv.len() == i);
            assert(prev.len() == i);
        }
        sigs.push(crate::snarkjs_common::f_to_dec(&public[i]));
        proof {
            assert forall|j: int| 0 <= j < i + 1 implies sigs.deep_view()[j] == dec_str(
                public@[j].value(),
            ) by {
                if j < i {
                    assert(sigs@[j] == prev[j]);
                    assert(prev_dv[j] == dec_str(public@[j].value()));
                }
            }
        }
        i += 1;
    }
    proof {
        assert(sigs.deep_view() =~~= publics_enc(public@));
    }

    let doc = ProofJson {
        protocol: "groth16".to_owned(),
        curve: curve.name().to_owned(),
        pi_a,
        pi_b,
        pi_c,
        publicSignals: sigs,
    };
    let text = proof_json_text(&doc);
    Ok((doc, text))
}

/// Export idempotence: any two documents assembled from the same record,
/// public inputs and curve render to identical JSON text, so exporting the
/// same inputs twice produces byte-identical file contents.
pub proof fn lemma_export_proof_idempotent(
    doc1: ProofJson,
    doc2: ProofJson,
    proof: ProofRecord,
    public: Seq<Fe>,
    curve: CurveTag,
)
    requires
        is_proof_json_of(doc1, proof, public, curve),
        is_proof_json_of(doc2, proof, public, curve),
    ensures
        proof_json_text_of(doc1) == proof_json_text_of(doc2),
{
}

/// Schema shape: in any document assembled from a record, `pi_a` and `pi_c`
/// are 3-element arrays ending in "1", and `pi_b` is a 3-row block of 2-element
/// rows whose last row is exactly ["1", "0"].
pub proof fn lemma_proof_json_shape(
    doc: ProofJson,
    proof: ProofRecord,
    public: Seq<Fe>,
    curve: CurveTag,
)
    requires
        is_proof_json_of(doc, proof, public, curve),
    ensures
        doc.pi_a.deep_view().len() == 3,
        doc.pi_a.deep_view().last() == seq!['1'],
        doc.pi_c.deep_view().len() == 3,
        doc.pi_c.deep_view().last() == seq!['1'],
        doc.pi_b.deep_view().len() == 3,
        forall|i: int| 0 <= i < 3 ==> (#[trigger] doc.pi_b.deep_view()[i]).len() == 2,
        doc.pi_b.deep_view().last() == seq![seq!['1'], seq!['0']],
{
    assert(doc.pi_b.deep_view()[0].len() == 2);
    assert(doc.pi_b.deep_view()[1].len() == 2);
    assert(doc.pi_b.deep_view()[2].len() == 2);
}

} // verus!
