//! Conversion of Groth16 proofs and verification keys into the JSON
//! interchange format consumed by the snarkjs toolchain.
//!
//! Field elements are carried as big-endian byte strings and rendered as
//! canonical unsigned decimal text; curve points are rendered as fixed-shape
//! arrays of such decimal strings.

pub mod decimal;
pub mod export_proof;
pub mod export_vk;
pub mod json;
pub mod snarkjs_common;

pub use export_proof::{export_proof, ProofJson, ProofRecord};
pub use export_vk::{export_vk, vk_to_snarkjs, VkJson, VkRecord};
pub use snarkjs_common::{f_to_dec, g1_xy, g2_xyxy, CurveTag, EncodeError, Fe, Fp2, G1Point,
    G2Point};
