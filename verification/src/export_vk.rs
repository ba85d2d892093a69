//! Assembly of the snarkjs verification-key document: the four fixed curve
//! points, the declared public-input count, and the ordered per-slot
//! coefficient list, together with the document's exact JSON text.

use vstd::prelude::*;
use vstd::string::*;

use crate::decimal::{dec_of_usize, dec_str};
use crate::json::{append_quoted, append_str_array, append_str_array2, quoted, str_array,
    str_array2};
use crate::snarkjs_common::{g1_enc, g1_xy, g2_enc, g2_xyxy, CurveTag, EncodeError, G1Point,
    G2Point};

verus! {

/// The points of a Groth16 verification key, as the encoder sees them: one
/// first-group point, three second-group points, and one first-group point
/// per public-input slot plus a constant term.
pub struct VkRecord {
    pub alpha_g1: G1Point,
    pub beta_g2: G2Point,
    pub gamma_g2: G2Point,
    pub delta_g2: G2Point,
    pub gamma_abc_g1: Vec<G1Point>,
}

/// The snarkjs verification-key document.
#[derive(Debug)]
pub struct VkJson {
    pub protocol: String,
    pub curve: String,
    pub n_public: usize,
    pub vk_alpha_1: Vec<String>,
    pub vk_beta_2: Vec<Vec<String>>,
    pub vk_gamma_2: Vec<Vec<String>>,
    pub vk_delta_2: Vec<Vec<String>>,
    pub ic: Vec<Vec<String>>,
}

/// Whether every point of the record is affine, i.e. representable.
pub open spec fn vk_all_affine(vk: VkRecord) -> bool {
    &&& vk.alpha_g1 is Affine
    &&& vk.beta_g2 is Affine
    &&& vk.gamma_g2 is Affine
    &&& vk.delta_g2 is Affine
    &&& forall|i: int| 0 <= i < vk.gamma_abc_g1@.len() ==> vk.gamma_abc_g1@[i] is Affine
}

/// The renderings of the per-slot coefficient points, in list order; the
/// position of an entry is the public-input slot it belongs to.
pub open spec fn ic_enc(pts: Seq<G1Point>) -> Seq<Seq<Seq<char>>> {
    Seq::new(pts.len(), |i: int| g1_enc(pts[i].spec_x(), pts[i].spec_y()))
}

/// Whether a document carries exactly the encoding of the given record,
/// public-input count and curve.
pub open spec fn is_vk_json_of(doc: VkJson, vk: VkRecord, n_public: usize, curve: CurveTag) -> bool {
    &&& doc.protocol@ == "groth16"@
    &&& doc.curve@ == curve.spec_name()
    &&& doc.n_public == n_public
    &&& doc.vk_alpha_1.deep_view() == g1_enc(vk.alpha_g1.spec_x(), vk.alpha_g1.spec_y())
    &&& doc.vk_beta_2.deep_view() == g2_enc(
        vk.beta_g2.spec_x0(),
        vk.beta_g2.spec_x1(),
        vk.beta_g2.spec_y0(),
        vk.beta_g2.spec_y1(),
    )
    &&& doc.vk_gamma_2.deep_view() == g2_enc(
        vk.gamma_g2.spec_x0(),
        vk.gamma_g2.spec_x1(),
        vk.gamma_g2.spec_y0(),
        vk.gamma_g2.spec_y1(),
    )
    &&& doc.vk_delta_2.deep_view() == g2_enc(
        vk.delta_g2.spec_x0(),
        vk.delta_g2.spec_x1(),
        vk.delta_g2.spec_y0(),
        vk.delta_g2.spec_y1(),
    )
    &&& doc.ic.deep_view() == ic_enc(vk.gamma_abc_g1@)
}

/// The JSON text of a verification-key document with the given field contents.
pub open spec fn vk_doc_text(
    protocol: Seq<char>,
    curve: Seq<char>,
    n_public: nat,
    alpha: Seq<Seq<char>>,
    beta: Seq<Seq<Seq<char>>>,
    gamma: Seq<Seq<Seq<char>>>,
    delta: Seq<Seq<Seq<char>>>,
    ic: Seq<Seq<Seq<char>>>,
) -> Seq<char> {
    "{\"protocol\":"@ + quoted(protocol) + ",\"curve\":"@ + quoted(curve) + ",\"n_public\":"@
        + dec_str(n_public) + ",\"vk_alpha_1\":"@ + str_array(alpha) + ",\"vk_beta_2\":"@
        + str_array2(beta) + ",\"vk_gamma_2\":"@ + str_array2(gamma) + ",\"vk_delta_2\":"@
        + str_array2(delta) + ",\"IC\":"@ + str_array2(ic) + "}"@
}

/// The JSON text of a verification-key document.
pub open spec fn vk_json_text_of(doc: VkJson) -> Seq<char> {
    vk_doc_text(
        doc.protocol@,
        doc.curve@,
        doc.n_public as nat,
        doc.vk_alpha_1.deep_view(),
        doc.vk_beta_2.deep_view(),
        doc.vk_gamma_2.deep_view(),
        doc.vk_delta_2.deep_view(),
        doc.ic.deep_view(),
    )
}

/// Render a verification-key document as its JSON text.
pub fn vk_json_text(doc: &VkJson) -> (r: String)
    ensures
        r@ == vk_json_text_of(*doc),
{
    let mut out = String::new();
    out.append("{\"protocol\":");
    append_quoted(&mut out, doc.protocol.as_str());
    out.append(",\"curve\":");
    append_quoted(&mut out, doc.curve.as_str());
    out.append(",\"n_public\":");
    let n = dec_of_usize(doc.n_public);
    out.append(n.as_str());
    out.append(",\"vk_alpha_1\":");
    append_str_array(&mut out, &doc.vk_alpha_1);
    out.append(",\"vk_beta_2\":");
    append_str_array2(&mut out, &doc.vk_beta_2);
    out.append(",\"vk_gamma_2\":");
    append_str_array2(&mut out, &doc.vk_gamma_2);
    out.append(",\"vk_delta_2\":");
    append_str_array2(&mut out, &doc.vk_delta_2);
    out.append(",\"IC\":");
    append_str_array2(&mut out, &doc.ic);
    out.append("}");
    proof {
        assert(out@ =~= vk_json_text_of(*doc));
    }
    out
}

/// Assemble the snarkjs verification-key document (in memory only) from a
/// verification-key record, the declared public-input count, and the curve in
/// use. The count and the coefficient list are independent fields: the
/// document carries both exactly as given, without reconciling them. Fails
/// exactly when one of the record's points is the point at infinity.
pub fn vk_to_snarkjs(vk: &VkRecord, n_public: usize, curve: CurveTag) -> (r: Result<
    VkJson,
    EncodeError,
>)
    ensures
        match r {
            Ok(doc) => vk_all_affine(*vk) && is_vk_json_of(doc, *vk, n_public, curve),
            Err(e) => e == EncodeError::UnrepresentablePoint && !vk_all_affine(*vk),
        },
{
    let vk_alpha_1 = match g1_xy(&vk.alpha_g1) {
        Ok(v) => v,
        Err(e) => return Err(e),
    };
    let vk_beta_2 = match g2_xyxy(&vk.beta_g2) {
        Ok(v) => v,
        Err(e) => return Err(e),
    };
    let vk_gamma_2 = match g2_xyxy(&vk.gamma_g2) {
        Ok(v) => v,
        Err(e) => return Err(e),
    };
    let vk_delta_2 = match g2_xyxy(&vk.delta_g2) {
        Ok(v) => v,
        Err(e) => return Err(e),
    };

    let mut ic: Vec<Vec<String>> = Vec::new();
    let mut i: usize = 0;
    while i < vk.gamma_abc_g1.len()
        invariant
            i <= vk.gamma_abc_g1@.len(),
            forall|j: int| 0 <= j < i ==> vk.gamma_abc_g1@[j] is Affine,
            ic.deep_view().len() == i,
            forall|j: int| 0 <= j < i ==> ic.deep_view()[j] == g1_enc(
                vk.gamma_abc_g1@[j].spec_x(),
                vk.gamma_abc_g1@[j].spec_y(),
            ),
        decreases vk.gamma_abc_g1@.len() - i,
    {
        let entry = match g1_xy(&vk.gamma_abc_g1[i]) {
            Ok(v) => v,
            Err(e) => {
                proof {
                    assert(!(vk.gamma_abc_g1@[i as int] is Affine));
                }
                return Err(e);
            },
        };
        let ghost prev = ic@;
        let ghost prev_dv = ic.deep_view();
        proof {
            assert(prev_dv.len() == i);
            assert(prev.len() == i);
        }
        ic.push(entry);
        proof {
            assert forall|j: int| 0 <= j < i + 1 implies ic.deep_view()[j] == g1_enc(
                vk.gamma_abc_g1@[j].spec_x(),
                vk.gamma_abc_g1@[j].spec_y(),
            ) by {
                if j < i {
                    assert(ic@[j] == prev[j]);
                    assert(prev_dv[j] == g1_enc(
                        vk.gamma_abc_g1@[j].spec_x(),
                        vk.gamma_abc_g1@[j].spec_y(),
                    ));
                }
            }
        }
        i += 1;
    }
    proof {
        assert(ic.deep_view() =~~= ic_enc(vk.gamma_abc_g1@));
    }

    Ok(
        VkJson {
            protocol: "groth16".to_owned(),
            curve: curve.name().to_owned(),
            n_public,
            vk_alpha_1,
            vk_beta_2,
            vk_gamma_2,
            vk_delta_2,
            ic,
        },
    )
}

/// Assemble the snarkjs verification-key document and its JSON text. Fails
/// exactly when one of the record's points is the point at infinity; no
/// partial document is returned.
pub fn export_vk(vk: &VkRecord, n_public: usize, curve: CurveTag) -> (r: Result<
    (VkJson, String),
    EncodeError,
>)
    ensures
        match r {
            Ok(p) => {
                &&& vk_all_affine(*vk)
                &&& is_vk_json_of(p.0, *vk, n_public, curve)
                &&& p.1@ == vk_json_text_of(p.0)
            },
            Err(e) => e == EncodeError::UnrepresentablePoint && !vk_all_affine(*vk),
        },
{
    let doc = match vk_to_snarkjs(vk, n_public, curve) {
        Ok(d) => d,
        Err(e) => return Err(e),
    };
    let text = vk_json_text(&doc);
    Ok((doc, text))
}

/// The public-input count and the coefficient list are independent: a
/// document carries `n_public` exactly as declared and one IC entry per
/// coefficient-list entry, whatever the relation between the two.
pub proof fn lemma_n_public_independent(doc: VkJson, vk: VkRecord, n_public: usize, curve: CurveTag)
    requires
        is_vk_json_of(doc, vk, n_public, curve),
    ensures
        doc.n_public == n_public,
        doc.ic.deep_view().len() == vk.gamma_abc_g1@.len(),
{
}

} // verus!
