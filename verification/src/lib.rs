//! Bandersnatch VRF lottery-ticket library.
//!
//! A verifiable-random-function (VRF) based ticket mechanism for a
//! proof-of-stake protocol: from a secret key and domain-separated input
//! bytes a participant derives a deterministic 32-byte score, and proves
//! possession of the secret either non-anonymously (the IETF path, bound to
//! one public key) or anonymously (the ring path, hiding which member of a
//! fixed key set signed).
//!
//! The elliptic-curve and polynomial-commitment arithmetic is performed by
//! the `ark-vrf` crate and its ring-proof backend; this crate states what
//! those calls return over byte-level models and verifies everything built
//! on top: input handling, ring padding, commitment lifecycle, signature
//! framing and score extraction.

use vstd::prelude::*;

pub mod model;
pub mod outside;
pub mod keys;
pub mod vrf;
pub mod context;
pub mod ring;
pub mod ietf;
pub mod ring_vrf;
pub mod laws;
pub mod erasure;

verus! {

/// Failure taxonomy for every VRF operation.
///
/// - `InvalidArgument`: a caller bug (out-of-range index, oversized ring).
/// - `MalformedEncoding`: bytes that fail canonical decoding into a point,
///   proof or commitment; hostile or corrupt network input.
/// - `CryptoVerificationFailure`: a well-formed proof that checks out false;
///   the ordinary "this ticket is invalid" outcome, kept distinct from
///   `MalformedEncoding` so upstream policy can react differently.
/// - `InternalConstructionFailure`: ring parameter construction failed; with
///   correctly built parameters this is unreachable.
#[derive(Debug, Clone, Copy, PartialEq, Eq, Structural)]
pub enum VrfError {
    InvalidArgument,
    MalformedEncoding,
    CryptoVerificationFailure,
    InternalConstructionFailure,
}

} // verus!
