//! The library's cross-function guarantees, stated and proved once.
//!
//! Each lemma below relates several public operations through the byte-level
//! models their contracts speak of; its `requires` hold nothing beyond what
//! those contracts ensure of the values involved.

use vstd::prelude::*;

use crate::keys::{public_wf, spec_public_from_bytes};
use crate::model::{public_key_of, vrf_output_of, vrf_score, score_of_signature, commitment_of, padding_of};
use crate::ring::padded_keys;

verus! {

/// Law: a public key survives the byte round trip.  For every secret — its
/// key being `public_key_of(seed)`, well-formed as `Secret::public`
/// guarantees — decoding the encoded key yields the key itself, so
/// `Public::from_bytes(secret.public().to_bytes())` returns
/// `secret.public()`.
pub proof fn lemma_public_key_roundtrip(seed: Seq<u8>, pk: Seq<u8>)
    requires
        pk == public_key_of(seed),
        public_wf(pk),
    ensures
        spec_public_from_bytes(pk) == Some(pk),
{
}

/// Law: the score is a function of secret and input alone — the same for
/// the ring path and the IETF path, and untouched by the additional data
/// either proof was bound to.  Any two signatures whose leading output
/// component is the VRF output of the same `(seed, data)` pair — as
/// `RingProver::sign` and `Secret::prove_ietf` both guarantee, whatever
/// additional data each used — carry the same score, the truncated output
/// hash that verification returns.
pub proof fn lemma_score_scheme_and_aux_independent(
    seed: Seq<u8>,
    data: Seq<u8>,
    ring_sig: Seq<u8>,
    ietf_sig: Seq<u8>,
)
    requires
        ring_sig.subrange(0, 32) == vrf_output_of(seed, data),
        ietf_sig.subrange(0, 32) == vrf_output_of(seed, data),
    ensures
        score_of_signature(ring_sig) == score_of_signature(ietf_sig),
        score_of_signature(ring_sig) == vrf_score(seed, data),
{
}

/// Law: the VRF output is deterministic.  Two signatures produced over the
/// same `(seed, data)` pair — by any number of separate calls, whose proof
/// bytes may well differ — hold byte-identical output components and yield
/// the same score.
pub proof fn lemma_output_deterministic(
    seed: Seq<u8>,
    data: Seq<u8>,
    sig1: Seq<u8>,
    sig2: Seq<u8>,
)
    requires
        sig1.subrange(0, 32) == vrf_output_of(seed, data),
        sig2.subrange(0, 32) == vrf_output_of(seed, data),
    ensures
        sig1.subrange(0, 32) == sig2.subrange(0, 32),
        score_of_signature(sig1) == score_of_signature(sig2),
        score_of_signature(sig1) == vrf_score(seed, data),
{
}

/// Law: a ring commitment is reproducible — a pure function of the ordered
/// member set and the context size.  Two rings whose slots substitute to
/// the same ordered key encodings commit to byte-identical values.  (That
/// rings differing in a member or in order commit to different values is a
/// collision-resistance property, witnessed by tests, not provable here.)
pub proof fn lemma_commitment_deterministic(
    size: nat,
    ring1: Seq<Option<Seq<u8>>>,
    ring2: Seq<Option<Seq<u8>>>,
)
    requires
        padded_keys(ring1, padding_of(size)) == padded_keys(ring2, padding_of(size)),
    ensures
        commitment_of(size, padded_keys(ring1, padding_of(size))) == commitment_of(
            size,
            padded_keys(ring2, padding_of(size)),
        ),
{
}

} // verus!
