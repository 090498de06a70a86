//! Byte-level model of the outside cryptography.
//!
//! Every curve object handled by this crate is modelled by plain bytes: a
//! public key, a VRF output point or a ring commitment by its canonical
//! compressed encoding, a secret key by the seed it was derived from, a VRF
//! input point by the data bytes it was hashed from.  The spec functions
//! without a body below name results of `ark-vrf` computations that are
//! functions of those models alone; the trusted wrappers next to the types
//! apply them, and everything else is proved from them.

use vstd::prelude::*;

verus! {

/// Whether hash-to-curve (Elligator2) finds an input point for `data`.
/// Names the success of `ark_vrf::Input::new`.
pub uninterp spec fn input_derives(data: Seq<u8>) -> bool;

/// Canonical 32-byte compressed encoding of the public key derived from
/// `seed`.  Names the composition of `ark_vrf::Secret::from_seed` and
/// `Secret::public`.
pub uninterp spec fn public_key_of(seed: Seq<u8>) -> Seq<u8>;

/// Whether 32 bytes decode into a valid public key point.
/// Names the success of `ark_vrf::Public` deserialization.
pub uninterp spec fn public_decodes(enc: Seq<u8>) -> bool;

/// Canonical 32-byte compressed encoding of the VRF output point for the
/// secret derived from `seed` over the input point derived from `data`.
/// Names the composition of `ark_vrf::Secret::from_seed`, `Input::new` and
/// `Secret::output`.
pub uninterp spec fn vrf_output_of(seed: Seq<u8>, data: Seq<u8>) -> Seq<u8>;

/// The 64-byte hash of the VRF output point whose compressed encoding is
/// `enc`.  Names `ark_vrf::Output::hash`.
pub uninterp spec fn point_hash_of(enc: Seq<u8>) -> Seq<u8>;

/// The 96 bytes of the IETF (non-anonymous) signature produced by the secret
/// derived from `seed` over input `data` with additional data `aux`.  The
/// IETF proof is nonce-deterministic, so this is a function of its
/// arguments.  Names `ark_vrf::ietf::Prover::prove` bundled with the output
/// point encoding.
pub uninterp spec fn ietf_sign_of(seed: Seq<u8>, data: Seq<u8>, aux: Seq<u8>) -> Seq<u8>;

/// Whether 96 bytes decode into an output point plus IETF proof.
/// Names the success of deserializing both signature components.
pub uninterp spec fn ietf_sig_decodes(sig: Seq<u8>) -> bool;

/// Whether the decoded IETF signature `sig` verifies for public key
/// encoding `pk`, input data `data` and additional data `aux`.
/// Names `ark_vrf::ietf::Verifier::verify`.
pub uninterp spec fn ietf_verify_ok(pk: Seq<u8>, data: Seq<u8>, aux: Seq<u8>, sig: Seq<u8>) -> bool;

/// Whether 784 bytes decode into an output point plus ring proof.
/// Names the success of deserializing both signature components.
pub uninterp spec fn ring_sig_decodes(sig: Seq<u8>) -> bool;

/// Whether the decoded ring signature `sig` verifies against the ring
/// commitment encoding `comm`, for ring parameters of size `size`, input
/// data `data` and additional data `aux`.
/// Names `ark_vrf::ring::Verifier::verify` together with the verifier-key
/// reconstruction from the commitment.
pub uninterp spec fn ring_verify_ok(
    size: nat,
    comm: Seq<u8>,
    data: Seq<u8>,
    aux: Seq<u8>,
    sig: Seq<u8>,
) -> bool;

/// The 144-byte compressed encoding of the ring commitment (the committed
/// fixed columns of the ring proof) for the ordered key encodings `keys`
/// under ring parameters of size `size`.  Names
/// `ark_vrf::ring::RingProofParams::verifier_key` followed by
/// `RingVerifierKey::commitment`.
pub uninterp spec fn commitment_of(size: nat, keys: Seq<Seq<u8>>) -> Seq<u8>;

/// Whether 144 bytes decode into a ring commitment.
/// Names the success of `ark_vrf::ring::RingCommitment` deserialization.
pub uninterp spec fn commitment_decodes(enc: Seq<u8>) -> bool;

/// The 32-byte encoding of the fixed padding point substituted for absent
/// ring slots, for ring parameters of size `size`.  The point is a suite
/// constant (the same for every size); this name claims only per-size
/// determinism.  Names `ark_vrf::ring::RingProofParams::padding_point`.
pub uninterp spec fn padding_of(size: nat) -> Seq<u8>;

/// The 32-byte score (ticket value) carried by a signature: the first 32
/// bytes of the hash of its leading output point encoding.
pub open spec fn score_of_signature(sig: Seq<u8>) -> Seq<u8> {
    point_hash_of(sig.subrange(0, 32)).take(32)
}

/// The 32-byte score owed to the pair (secret seed, input data), on every
/// signing path: the truncated hash of the VRF output point.
pub open spec fn vrf_score(seed: Seq<u8>, data: Seq<u8>) -> Seq<u8> {
    point_hash_of(vrf_output_of(seed, data)).take(32)
}

} // verus!
