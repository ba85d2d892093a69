//! Decimal rendering: round trip against an independent big-integer library,
//! canonical format, and exact values at the edges.

use ark_ff::{BigInteger, One, PrimeField};
use ark_snarkjs::{f_to_dec, Fe};
use num_bigint::BigUint;

fn fe(bytes: &[u8]) -> Fe {
    Fe { bytes: bytes.to_vec() }
}

#[test]
fn test_decimal_zero() {
    assert_eq!(f_to_dec(&fe(&[])), "0");
    assert_eq!(f_to_dec(&fe(&[0])), "0");
    assert_eq!(f_to_dec(&fe(&[0, 0, 0, 0])), "0");
}

#[test]
fn test_decimal_small_values() {
    assert_eq!(f_to_dec(&fe(&[1])), "1");
    assert_eq!(f_to_dec(&fe(&[9])), "9");
    assert_eq!(f_to_dec(&fe(&[10])), "10");
    assert_eq!(f_to_dec(&fe(&[255])), "255");
    assert_eq!(f_to_dec(&fe(&[1, 0])), "256");
    assert_eq!(f_to_dec(&fe(&[0, 1, 0])), "256");
    assert_eq!(f_to_dec(&fe(&[3, 232])), "1000");
}

#[test]
fn test_decimal_matches_big_integer_library() {
    let samples: Vec<Vec<u8>> = vec![
        vec![],
        vec![0],
        vec![1],
        vec![255, 255, 255, 255],
        vec![1, 2, 3, 4, 5, 6, 7, 8, 9, 10],
        vec![0, 0, 7, 200, 13],
        vec![222, 173, 190, 239, 0, 0, 255, 254, 1],
        vec![
            48, 100, 78, 114, 225, 49, 160, 41, 184, 80, 69, 182, 129, 129, 88, 93, 40, 51, 232,
            72, 121, 185, 112, 145, 67, 225, 245, 147, 240, 0, 0, 0,
        ],
    ];
    for bytes in samples {
        let expected = BigUint::from_bytes_be(&bytes).to_str_radix(10);
        assert_eq!(f_to_dec(&fe(&bytes)), expected);
    }
}

#[test]
fn test_decimal_round_trip() {
    let samples: Vec<Vec<u8>> = vec![
        vec![1],
        vec![255, 0],
        vec![17, 34, 51, 68, 85, 102, 119, 136],
        vec![9; 48],
    ];
    for bytes in samples {
        let rendered = f_to_dec(&fe(&bytes));
        let parsed = BigUint::parse_bytes(rendered.as_bytes(), 10).unwrap();
        assert_eq!(parsed, BigUint::from_bytes_be(&bytes));
    }
}

#[test]
fn test_decimal_format_invariants() {
    let samples: Vec<Vec<u8>> = vec![
        vec![],
        vec![0, 0],
        vec![1],
        vec![0, 200],
        vec![255; 32],
        vec![128, 0, 0, 0, 0, 0, 0, 1],
    ];
    for bytes in samples {
        let rendered = f_to_dec(&fe(&bytes));
        assert!(!rendered.is_empty());
        assert!(rendered.chars().all(|c| c.is_ascii_digit()));
        if rendered.len() > 1 {
            assert!(!rendered.starts_with('0'));
        }
    }
}

#[test]
fn test_decimal_largest_residue_bn254() {
    // The canonical representative of -1 is modulus - 1, the largest residue.
    let minus_one = -ark_bn254::Fq::one();
    let bytes = minus_one.into_bigint().to_bytes_be();
    assert_eq!(
        f_to_dec(&fe(&bytes)),
        "21888242871839275222246405745257275088696311157297823662689037894645226208582"
    );
}

#[test]
fn test_decimal_largest_residue_bls12_381() {
    let minus_one = -ark_bls12_381::Fq::one();
    let bytes = minus_one.into_bigint().to_bytes_be();
    let expected = BigUint::from_bytes_be(&bytes).to_str_radix(10);
    let rendered = f_to_dec(&fe(&bytes));
    assert_eq!(rendered, expected);
    assert_eq!(
        rendered,
        "4002409555221667393417789825735904156556882819939007885332058136124031650490\
         837864442687629129015664037894272559786"
    );
}
