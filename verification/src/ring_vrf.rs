//! The anonymous (ring) path: proofs that hide the signer within a ring.
//!
//! A ring signature bundles the 32-byte output point encoding with the
//! Pedersen and ring-membership proofs, 784 bytes in all.  The proof uses
//! internal blinding randomness, so two signatures over the same data may
//! differ byte for byte; what is deterministic — the output point and hence
//! the score — is pinned exactly, and a signature produced over a ring that
//! holds the signer's key at the prover's index always verifies against that
//! ring's commitment.

use vstd::prelude::*;

use ark_vrf::suites::bandersnatch as bs;
use ark_vrf::ring::{Prover, Verifier};
use ark_vrf::reexports::ark_serialize::{CanonicalDeserialize, CanonicalSerialize};

use crate::VrfError;
use crate::context::RingContext;
use crate::keys::{Secret, Public};
use crate::vrf::VrfInput;
use crate::ring::{Ring, RingCommitment, keys_view, padded_keys, commitment_wf};
use crate::model::{
    input_derives, public_key_of, vrf_output_of, point_hash_of,
    ring_sig_decodes, ring_verify_ok, commitment_of, commitment_decodes, padding_of,
    score_of_signature,
};

verus! {

/// Exact byte length of a ring signature.
pub const RING_SIGNATURE_SIZE: usize = 784;

/// A valid ring signature against commitment `comm` under parameters of
/// size `size`, over `data` and `aux`: exactly the inputs on which
/// `RingVerifier::verify` succeeds.
pub open spec fn ring_signature_valid(
    size: nat,
    comm: Seq<u8>,
    data: Seq<u8>,
    aux: Seq<u8>,
    sig: Seq<u8>,
) -> bool {
    &&& sig.len() == 784
    &&& input_derives(data)
    &&& ring_sig_decodes(sig)
    &&& ring_verify_ok(size, comm, data, aux, sig)
}

/// An `{output, proof}` bundle of the anonymous scheme in its canonical
/// 784-byte layout: output point encoding first, then the Pedersen and ring
/// proofs.
pub struct RingVrfSignature {
    pub(crate) bytes: Vec<u8>,
}

impl View for RingVrfSignature {
    type V = Seq<u8>;

    open(crate) spec fn view(&self) -> Seq<u8> {
        self.bytes@
    }
}

impl RingVrfSignature {
    /// Every signature value holds exactly 784 bytes.
    #[verifier::type_invariant]
    spec fn inv(self) -> bool {
        self.bytes@.len() == 784
    }

    /// The canonical 784-byte encoding.
    pub fn to_bytes(&self) -> (r: Vec<u8>)
        ensures
            r@ == self@,
    {
        vstd::slice::slice_to_vec(self.bytes.as_slice())
    }

    /// Frame raw bytes as a ring signature.  Checks the length alone;
    /// whether the content decodes is the verifier's to decide.
    pub fn from_bytes(bytes: &[u8]) -> (r: Result<RingVrfSignature, VrfError>)
        ensures
            r is Ok <==> bytes@.len() == 784,
            r matches Ok(s) ==> s@ == bytes@,
            r is Err ==> r == Err::<RingVrfSignature, VrfError>(VrfError::MalformedEncoding),
    {
        if bytes.len() != 784 {
            return Err(VrfError::MalformedEncoding);
        }
        Ok(RingVrfSignature { bytes: vstd::slice::slice_to_vec(bytes) })
    }
}

/// Relies on `ark_vrf::Secret::output`, `RingProofParams::prover_key`,
/// `RingProofParams::prover`, `ring::Prover::prove` and compressed
/// serialization, mirroring the scheme's prescribed signing sequence.  The
/// serialized bundle is the 32-byte output point encoding followed by the
/// proofs, 784 bytes that deserialize back.  The proof carries blinding
/// randomness, so only what holds of every outcome is stated: whenever the
/// key at the prover's index is the signer's own, the produced signature
/// verifies against the commitment of the same ring (completeness).
#[verifier::external_body]
fn ring_sign_raw(
    secret: &Secret,
    input: &VrfInput,
    pts: &Vec<Public>,
    index: usize,
    ctx: &RingContext,
    aux: &[u8],
) -> (r: Vec<u8>)
    requires
        index < pts@.len(),
        pts@.len() <= ctx.spec_size(),
    ensures
        r@.len() == 784,
        r@.subrange(0, 32) == vrf_output_of(secret@, input@),
        ring_sig_decodes(r@),
        keys_view(pts@)[index as int] == public_key_of(secret@) ==> ring_verify_ok(
            ctx.spec_size(),
            commitment_of(ctx.spec_size(), keys_view(pts@)),
            input@,
            aux@,
            r@,
        ),
{
    let output = secret.inner.v.output(input.inner.v);
    let points: Vec<bs::AffinePoint> = pts.iter().map(|p| p.inner.v.0).collect();
    let prover_key = ctx.inner.v.prover_key(&points);
    let prover = ctx.inner.v.prover(prover_key, index);
    let proof = secret.inner.v.prove(input.inner.v, output, aux, &prover);
    let mut buf = Vec::new();
    output.serialize_compressed(&mut buf).expect("point serialization is infallible");
    proof.serialize_compressed(&mut buf).expect("proof serialization is infallible");
    buf
}

/// Relies on `ark_vrf::Output`, `ring::Proof` and `RingCommitment`
/// deserialization, `RingProofParams::verifier_key_from_commitment`,
/// `RingProofParams::verifier`, `ring::Verifier::verify` and
/// `Output::hash`, mirroring the scheme's prescribed verification sequence:
/// signature decoding succeeds exactly when both components decode;
/// verification is deterministic in the parameters' size, the commitment,
/// the input point, the additional data and the signature bytes; the
/// returned hash is the 64-byte hash of the decoded output point, whose
/// canonical encoding is the signature's first 32 bytes.
#[verifier::external_body]
fn ring_verify_raw(
    ctx: &RingContext,
    comm: &[u8],
    input: &VrfInput,
    aux: &[u8],
    sig: &[u8],
) -> (r: Result<Option<Vec<u8>>, VrfError>)
    requires
        sig@.len() == 784,
        comm@.len() == 144,
        commitment_decodes(comm@),
    ensures
        r is Err <==> !ring_sig_decodes(sig@),
        r matches Err(e) ==> e == VrfError::MalformedEncoding,
        r matches Ok(o) ==> ((o is Some) <==> ring_verify_ok(
            ctx.spec_size(),
            comm@,
            input@,
            aux@,
            sig@,
        )),
        r matches Ok(o) ==> (o matches Some(h) ==> h@ == point_hash_of(sig@.subrange(0, 32))
            && h@.len() == 64),
{
    let malformed = VrfError::MalformedEncoding;
    let Ok(output) = bs::Output::deserialize_compressed(&sig[..32]) else { return Err(malformed) };
    let Ok(proof) = bs::RingProof::deserialize_compressed(&sig[32..]) else { return Err(malformed) };
    let Ok(commitment) = bs::RingCommitment::deserialize_compressed(comm) else { return Err(malformed) };
    let verifier = ctx.inner.v.verifier(ctx.inner.v.verifier_key_from_commitment(commitment));
    if bs::Public::verify(input.inner.v, output, aux, &proof, &verifier).is_err() {
        return Ok(None);
    }
    Ok(Some(output.hash().to_vec()))
}

/// An anonymous prover: a context, the ring's padded key points, and the
/// signer's position among them.
pub struct RingProver<'a> {
    pub(crate) ctx: &'a RingContext,
    pub(crate) pts: Vec<Public>,
    pub(crate) index: usize,
}

impl<'a> RingProver<'a> {
    /// The signer's index lies within the ring, which fits the context.
    #[verifier::type_invariant]
    spec fn inv(self) -> bool {
        self.index < self.pts@.len() && self.pts@.len() <= self.ctx.spec_size()
    }

    /// The padded key encodings the proving key is bound to.
    pub open(crate) spec fn keys(&self) -> Seq<Seq<u8>> {
        keys_view(self.pts@)
    }

    /// The signer's position within the ring.
    pub open(crate) spec fn spec_index(&self) -> int {
        self.index as int
    }

    /// The ring size the underlying context serves.
    pub open(crate) spec fn size(&self) -> nat {
        self.ctx.spec_size()
    }

    /// Build a prover bound to the exact ordered ring — absent slots
    /// replaced by the padding point — and to the signer's position.
    ///
    /// Fails with `InvalidArgument` exactly when `index` is out of bounds
    /// or the ring has more slots than the context serves.
    pub fn new(ring: &Ring, ctx: &'a RingContext, index: usize) -> (r: Result<
        RingProver<'a>,
        VrfError,
    >)
        ensures
            r is Ok <==> index < ring@.len() && ring@.len() <= ctx.spec_size(),
            r matches Ok(p) ==> {
                &&& p.keys() == padded_keys(ring@, padding_of(ctx.spec_size()))
                &&& p.spec_index() == index
                &&& p.size() == ctx.spec_size()
            },
            r is Err ==> r == Err::<RingProver<'a>, VrfError>(VrfError::InvalidArgument),
    {
        if index >= ring.len() || ring.len() > ctx.size() {
            return Err(VrfError::InvalidArgument);
        }
        let pts = ring.points(ctx);
        Ok(RingProver { ctx, pts, index })
    }

    /// Produce the anonymous signature over `input_bytes` bound to `aux`:
    /// the VRF output point followed by the ring proof, 784 bytes in all.
    /// Only the output point is deterministic; the proof may differ between
    /// calls, yet — whenever the key at the prover's index is the signer's
    /// own — always verifies against the same ring's commitment.
    ///
    /// Fails with `MalformedEncoding` exactly when no input point derives
    /// from `input_bytes`.
    pub fn sign(&self, secret: &Secret, input_bytes: &[u8], aux: &[u8]) -> (r: Result<
        RingVrfSignature,
        VrfError,
    >)
        ensures
            r is Ok <==> input_derives(input_bytes@),
            r matches Ok(s) ==> {
                &&& s@.len() == 784
                &&& s@.subrange(0, 32) == vrf_output_of(secret@, input_bytes@)
                &&& ring_sig_decodes(s@)
                &&& (self.keys()[self.spec_index()] == public_key_of(secret@)
                    ==> ring_signature_valid(
                    self.size(),
                    commitment_of(self.size(), self.keys()),
                    input_bytes@,
                    aux@,
                    s@,
                ))
            },
            r is Err ==> r == Err::<RingVrfSignature, VrfError>(VrfError::MalformedEncoding),
    {
        proof {
            use_type_invariant(self);
        }
        let input = VrfInput::derive(input_bytes)?;
        let bytes = ring_sign_raw(secret, &input, &self.pts, self.index, self.ctx, aux);
        Ok(RingVrfSignature { bytes })
    }
}

/// An anonymous verifier: a context and the 144-byte commitment of the ring
/// it checks against.  Rebuilt from the compact commitment, never from the
/// full ring: the commitment is paid for once per membership change, and
/// the verifier holds no member list.
pub struct RingVerifier<'a> {
    pub(crate) ctx: &'a RingContext,
    pub(crate) comm: Vec<u8>,
}

impl<'a> RingVerifier<'a> {
    /// Every verifier holds a well-formed commitment encoding.
    #[verifier::type_invariant]
    spec fn inv(self) -> bool {
        commitment_wf(self.comm@)
    }

    /// The commitment encoding this verifier checks against.
    pub open(crate) spec fn commitment(&self) -> Seq<u8> {
        self.comm@
    }

    /// The ring size the underlying context serves.
    pub open(crate) spec fn size(&self) -> nat {
        self.ctx.spec_size()
    }

    /// Reconstruct a verifier from a cached commitment.
    pub fn from_commitment(commitment: &RingCommitment, ctx: &'a RingContext) -> (r: RingVerifier<
        'a,
    >)
        ensures
            r.commitment() == commitment@,
            r.size() == ctx.spec_size(),
    {
        proof {
            use_type_invariant(commitment);
        }
        RingVerifier { ctx, comm: commitment.to_bytes() }
    }

    /// Check a 784-byte candidate signature over `input_bytes` and `aux`
    /// against this verifier's ring commitment; on success return the
    /// 32-byte score.
    ///
    /// Fails with `MalformedEncoding` when the length is wrong, no input
    /// point derives, or the bytes do not decode; with
    /// `CryptoVerificationFailure` when the decoded proof checks out false.
    /// Never partial: a failing proof yields no score.
    pub fn verify(&self, signature: &[u8], input_bytes: &[u8], aux: &[u8]) -> (r: Result<
        Vec<u8>,
        VrfError,
    >)
        ensures
            r is Ok <==> ring_signature_valid(
                self.size(),
                self.commitment(),
                input_bytes@,
                aux@,
                signature@,
            ),
            r matches Ok(score) ==> score@ == score_of_signature(signature@)
                && score@.len() == 32,
            signature@.len() != 784 || !input_derives(input_bytes@) || !ring_sig_decodes(
                signature@,
            ) ==> r == Err::<Vec<u8>, VrfError>(VrfError::MalformedEncoding),
            signature@.len() == 784 && input_derives(input_bytes@) && ring_sig_decodes(signature@)
                && !ring_verify_ok(
                self.size(),
                self.commitment(),
                input_bytes@,
                aux@,
                signature@,
            ) ==> r == Err::<Vec<u8>, VrfError>(VrfError::CryptoVerificationFailure),
    {
        proof {
            use_type_invariant(self);
        }
        if signature.len() != 784 {
            return Err(VrfError::MalformedEncoding);
        }
        let input = match VrfInput::derive(input_bytes) {
            Ok(input) => input,
            Err(_) => return Err(VrfError::MalformedEncoding),
        };
        match ring_verify_raw(self.ctx, self.comm.as_slice(), &input, aux, signature) {
            Err(e) => Err(e),
            Ok(None) => Err(VrfError::CryptoVerificationFailure),
            Ok(Some(hash)) => {
                let score = vstd::slice::slice_to_vec(
                    vstd::slice::slice_subrange(hash.as_slice(), 0, 32),
                );
                assert(score@ == score_of_signature(signature@));
                Ok(score)
            },
        }
    }
}

} // verus!
