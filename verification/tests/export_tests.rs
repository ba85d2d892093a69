//! Export drivers: schema shape of the emitted documents, idempotence,
//! curve identifiers, error propagation, and the independence of the
//! public-input count from the coefficient list.

use ark_snarkjs::export_proof::export_proof;
use ark_snarkjs::export_vk::{export_vk, vk_to_snarkjs, VkRecord};
use ark_snarkjs::{CurveTag, EncodeError, Fe, Fp2, G1Point, G2Point, ProofRecord};

fn fe(n: u8) -> Fe {
    Fe { bytes: vec![n] }
}

fn g1(x: u8, y: u8) -> G1Point {
    G1Point::Affine { x: fe(x), y: fe(y) }
}

fn g2(x0: u8, x1: u8, y0: u8, y1: u8) -> G2Point {
    G2Point::Affine {
        x: Fp2 { c0: fe(x0), c1: fe(x1) },
        y: Fp2 { c0: fe(y0), c1: fe(y1) },
    }
}

fn sample_proof() -> ProofRecord {
    ProofRecord {
        a: g1(1, 2),
        b: g2(3, 4, 5, 6),
        c: g1(7, 8),
    }
}

fn sample_vk() -> VkRecord {
    VkRecord {
        alpha_g1: g1(1, 2),
        beta_g2: g2(3, 4, 5, 6),
        gamma_g2: g2(7, 8, 9, 10),
        delta_g2: g2(11, 12, 13, 14),
        gamma_abc_g1: vec![g1(15, 16), g1(17, 18)],
    }
}

#[test]
fn test_proof_document_schema_shape() {
    let publics = vec![fe(42), fe(0)];
    let (doc, text) = export_proof(&sample_proof(), &publics, CurveTag::Bn128).unwrap();

    assert_eq!(doc.protocol, "groth16");
    assert_eq!(doc.curve, "bn128");
    assert_eq!(doc.pi_a, vec!["1", "2", "1"]);
    assert_eq!(
        doc.pi_b,
        vec![vec!["3", "4"], vec!["5", "6"], vec!["1", "0"]]
    );
    assert_eq!(doc.pi_c, vec!["7", "8", "1"]);
    assert_eq!(doc.publicSignals, vec!["42", "0"]);

    let v: serde_json::Value = serde_json::from_str(&text).unwrap();
    assert_eq!(v["protocol"].as_str().unwrap(), "groth16");
    assert_eq!(v["curve"].as_str().unwrap(), "bn128");
    let pi_a = v["pi_a"].as_array().unwrap();
    assert_eq!(pi_a.len(), 3);
    assert_eq!(pi_a[2].as_str().unwrap(), "1");
    let pi_c = v["pi_c"].as_array().unwrap();
    assert_eq!(pi_c.len(), 3);
    assert_eq!(pi_c[2].as_str().unwrap(), "1");
    let pi_b = v["pi_b"].as_array().unwrap();
    assert_eq!(pi_b.len(), 3);
    for row in pi_b {
        assert_eq!(row.as_array().unwrap().len(), 2);
    }
    assert_eq!(pi_b[2][0].as_str().unwrap(), "1");
    assert_eq!(pi_b[2][1].as_str().unwrap(), "0");
    assert_eq!(v["publicSignals"].as_array().unwrap().len(), 2);
    assert_eq!(v["publicSignals"][0].as_str().unwrap(), "42");
    assert_eq!(v["publicSignals"][1].as_str().unwrap(), "0");
}

#[test]
fn test_export_proof_idempotent() {
    let publics = vec![fe(9), fe(200)];
    let (_, text1) = export_proof(&sample_proof(), &publics, CurveTag::Bls12381).unwrap();
    let (_, text2) = export_proof(&sample_proof(), &publics, CurveTag::Bls12381).unwrap();
    assert_eq!(text1, text2);
    assert_eq!(text1.as_bytes(), text2.as_bytes());
}

#[test]
fn test_export_vk_idempotent() {
    let (_, text1) = export_vk(&sample_vk(), 1, CurveTag::Bn128).unwrap();
    let (_, text2) = export_vk(&sample_vk(), 1, CurveTag::Bn128).unwrap();
    assert_eq!(text1.as_bytes(), text2.as_bytes());
}

#[test]
fn test_curve_identifiers() {
    let publics = vec![fe(1)];
    let (doc_bn, text_bn) = export_proof(&sample_proof(), &publics, CurveTag::Bn128).unwrap();
    assert_eq!(doc_bn.curve, "bn128");
    assert!(!text_bn.contains("bls12381"));
    let (doc_bls, text_bls) = export_proof(&sample_proof(), &publics, CurveTag::Bls12381).unwrap();
    assert_eq!(doc_bls.curve, "bls12381");
    assert!(!text_bls.contains("bn128"));

    let (vk_bn, vk_text_bn) = export_vk(&sample_vk(), 2, CurveTag::Bn128).unwrap();
    assert_eq!(vk_bn.curve, "bn128");
    assert!(!vk_text_bn.contains("bls12381"));
    let (vk_bls, vk_text_bls) = export_vk(&sample_vk(), 2, CurveTag::Bls12381).unwrap();
    assert_eq!(vk_bls.curve, "bls12381");
    assert!(!vk_text_bls.contains("bn128"));
}

#[test]
fn test_export_proof_infinity_fails() {
    let publics = vec![fe(1)];
    let infinite_a = ProofRecord {
        a: G1Point::Infinity,
        b: g2(3, 4, 5, 6),
        c: g1(7, 8),
    };
    assert_eq!(
        export_proof(&infinite_a, &publics, CurveTag::Bn128).unwrap_err(),
        EncodeError::UnrepresentablePoint
    );
    let infinite_b = ProofRecord {
        a: g1(1, 2),
        b: G2Point::Infinity,
        c: g1(7, 8),
    };
    assert_eq!(
        export_proof(&infinite_b, &publics, CurveTag::Bn128).unwrap_err(),
        EncodeError::UnrepresentablePoint
    );
}

#[test]
fn test_export_vk_infinity_fails() {
    let mut vk = sample_vk();
    vk.gamma_abc_g1.push(G1Point::Infinity);
    assert_eq!(
        export_vk(&vk, 1, CurveTag::Bn128).unwrap_err(),
        EncodeError::UnrepresentablePoint
    );
}

#[test]
fn test_vk_n_public_independent_of_ic_length() {
    // One declared public input, but a coefficient list of length 2: the two
    // fields are independent and both are carried through exactly as given.
    let doc = vk_to_snarkjs(&sample_vk(), 1, CurveTag::Bn128).unwrap();
    assert_eq!(doc.n_public, 1);
    assert_eq!(doc.ic.len(), 2);

    let (_, text) = export_vk(&sample_vk(), 1, CurveTag::Bn128).unwrap();
    let v: serde_json::Value = serde_json::from_str(&text).unwrap();
    assert_eq!(v["n_public"].as_u64().unwrap(), 1);
    assert_eq!(v["IC"].as_array().unwrap().len(), 2);
}

#[test]
fn test_vk_document_schema_shape() {
    let (doc, text) = export_vk(&sample_vk(), 2, CurveTag::Bn128).unwrap();
    assert_eq!(doc.protocol, "groth16");
    assert_eq!(doc.vk_alpha_1, vec!["1", "2"]);
    assert_eq!(doc.vk_beta_2, vec![vec!["3", "4"], vec!["5", "6"]]);
    assert_eq!(doc.vk_gamma_2, vec![vec!["7", "8"], vec!["9", "10"]]);
    assert_eq!(doc.vk_delta_2, vec![vec!["11", "12"], vec!["13", "14"]]);
    assert_eq!(doc.ic, vec![vec!["15", "16"], vec!["17", "18"]]);

    let v: serde_json::Value = serde_json::from_str(&text).unwrap();
    assert_eq!(v["protocol"].as_str().unwrap(), "groth16");
    assert_eq!(v["curve"].as_str().unwrap(), "bn128");
    assert_eq!(v["vk_alpha_1"].as_array().unwrap().len(), 2);
    for key in ["vk_beta_2", "vk_gamma_2", "vk_delta_2"] {
        let block = v[key].as_array().unwrap();
        assert_eq!(block.len(), 2);
        for row in block {
            assert_eq!(row.as_array().unwrap().len(), 2);
        }
    }
    let ic = v["IC"].as_array().unwrap();
    assert_eq!(ic.len(), 2);
    assert_eq!(ic[0][0].as_str().unwrap(), "15");
    assert_eq!(ic[1][1].as_str().unwrap(), "18");
}

#[test]
fn test_public_signals_preserve_order() {
    let publics = vec![fe(5), fe(7), fe(5)];
    let (doc, _) = export_proof(&sample_proof(), &publics, CurveTag::Bn128).unwrap();
    assert_eq!(doc.publicSignals, vec!["5", "7", "5"]);
}
