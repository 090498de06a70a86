//! The non-anonymous (IETF) path: a plain VRF proof tied to one public key.
//!
//! An IETF signature bundles the 32-byte output point encoding with the
//! 64-byte Schnorr proof, 96 bytes in all.  The proof's nonce is derived
//! deterministically, so the whole signature is a function of secret seed,
//! input data and additional data.

use vstd::prelude::*;

use ark_vrf::suites::bandersnatch as bs;
use ark_vrf::ietf::{Prover, Verifier};
use ark_vrf::reexports::ark_serialize::{CanonicalDeserialize, CanonicalSerialize};

use crate::VrfError;
use crate::keys::{Secret, Public};
use crate::vrf::VrfInput;
use crate::model::{
    input_derives, public_key_of, vrf_output_of, point_hash_of,
    ietf_sign_of, ietf_sig_decodes, ietf_verify_ok, score_of_signature,
};

verus! {

/// Exact byte length of an IETF signature.
pub const IETF_SIGNATURE_SIZE: usize = 96;

/// A valid IETF signature for public key `pk` over `data` and `aux`:
/// exactly the inputs on which `verify_ietf` succeeds.
pub open spec fn ietf_signature_valid(
    pk: Seq<u8>,
    data: Seq<u8>,
    aux: Seq<u8>,
    sig: Seq<u8>,
) -> bool {
    &&& sig.len() == 96
    &&& input_derives(data)
    &&& ietf_sig_decodes(sig)
    &&& ietf_verify_ok(pk, data, aux, sig)
}

/// An `{output, proof}` bundle of the non-anonymous scheme in its canonical
/// 96-byte layout: output point encoding first, then challenge and response
/// scalars.
pub struct IetfVrfSignature {
    pub(crate) bytes: Vec<u8>,
}

impl View for IetfVrfSignature {
    type V = Seq<u8>;

    open(crate) spec fn view(&self) -> Seq<u8> {
        self.bytes@
    }
}

impl IetfVrfSignature {
    /// Every signature value holds exactly 96 bytes.
    #[verifier::type_invariant]
    spec fn inv(self) -> bool {
        self.bytes@.len() == 96
    }
}

/// Relies on `ark_vrf::ietf::Prover::prove` and compressed serialization:
/// the proof is nonce-deterministic (RFC-9381 section 5.4.2.2), so the
/// serialized bundle is a function of seed, input data and additional data;
/// its layout is the 32-byte output point encoding followed by the 64-byte
/// proof, it deserializes back, and it verifies against the signer's own
/// public key (completeness of the scheme).
#[verifier::external_body]
fn ietf_sign_raw(secret: &Secret, input: &VrfInput, aux: &[u8]) -> (r: Vec<u8>)
    ensures
        r@.len() == 96,
        r@ == ietf_sign_of(secret@, input@, aux@),
        r@.subrange(0, 32) == vrf_output_of(secret@, input@),
        ietf_sig_decodes(r@),
        ietf_verify_ok(public_key_of(secret@), input@, aux@, r@),
{
    let output = secret.inner.v.output(input.inner.v);
    let proof = secret.inner.v.prove(input.inner.v, output, aux);
    let mut buf = Vec::new();
    output.serialize_compressed(&mut buf).expect("point serialization is infallible");
    proof.serialize_compressed(&mut buf).expect("proof serialization is infallible");
    buf
}

/// Relies on `ark_vrf::Output` and `ietf::Proof` deserialization,
/// `ietf::Verifier::verify` and `Output::hash`: decoding succeeds exactly
/// when both components decode; verification is deterministic in the public
/// key, input point, additional data and decoded signature; the returned
/// hash is the 64-byte hash of the decoded output point, whose canonical
/// encoding is the signature's first 32 bytes.
#[verifier::external_body]
fn ietf_verify_raw(public: &Public, input: &VrfInput, aux: &[u8], sig: &[u8]) -> (r: Result<
    Option<Vec<u8>>,
    VrfError,
>)
    requires
        sig@.len() == 96,
    ensures
        r is Err <==> !ietf_sig_decodes(sig@),
        r matches Err(e) ==> e == VrfError::MalformedEncoding,
        r matches Ok(o) ==> ((o is Some) <==> ietf_verify_ok(public@, input@, aux@, sig@)),
        r matches Ok(o) ==> (o matches Some(h) ==> h@ == point_hash_of(sig@.subrange(0, 32))
            && h@.len() == 64),
{
    let malformed = VrfError::MalformedEncoding;
    let Ok(output) = bs::Output::deserialize_compressed(&sig[..32]) else { return Err(malformed) };
    let Ok(proof) = bs::IetfProof::deserialize_compressed(&sig[32..]) else { return Err(malformed) };
    if public.inner.v.verify(input.inner.v, output, aux, &proof).is_err() {
        return Ok(None);
    }
    Ok(Some(output.hash().to_vec()))
}

impl Secret {
    /// Produce the non-anonymous signature over `input_bytes` bound to
    /// `aux`: the VRF output point followed by the deterministic proof,
    /// 96 bytes in all.
    ///
    /// Fails with `MalformedEncoding` exactly when no input point derives
    /// from `input_bytes`.
    pub fn prove_ietf(&self, input_bytes: &[u8], aux: &[u8]) -> (r: Result<
        IetfVrfSignature,
        VrfError,
    >)
        ensures
            r is Ok <==> input_derives(input_bytes@),
            r matches Ok(s) ==> {
                &&& s@ == ietf_sign_of(self@, input_bytes@, aux@)
                &&& s@.len() == 96
                &&& s@.subrange(0, 32) == vrf_output_of(self@, input_bytes@)
                &&& ietf_signature_valid(public_key_of(self@), input_bytes@, aux@, s@)
            },
            r is Err ==> r == Err::<IetfVrfSignature, VrfError>(VrfError::MalformedEncoding),
    {
        let input = VrfInput::derive(input_bytes)?;
        let bytes = ietf_sign_raw(self, &input, aux);
        Ok(IetfVrfSignature { bytes })
    }
}

impl Public {
    /// Check a 96-byte candidate signature over `input_bytes` and `aux`
    /// against this key; on success return the 32-byte score.
    ///
    /// Fails with `MalformedEncoding` when the length is wrong, no input
    /// point derives, or the bytes do not decode; with
    /// `CryptoVerificationFailure` when the decoded proof checks out false.
    /// Never partial: a failing proof yields no score.
    pub fn verify_ietf(&self, signature: &[u8], input_bytes: &[u8], aux: &[u8]) -> (r: Result<
        Vec<u8>,
        VrfError,
    >)
        ensures
            r is Ok <==> ietf_signature_valid(self@, input_bytes@, aux@, signature@),
            r matches Ok(score) ==> score@ == score_of_signature(signature@)
                && score@.len() == 32,
            signature@.len() != 96 || !input_derives(input_bytes@) || !ietf_sig_decodes(
                signature@,
            ) ==> r == Err::<Vec<u8>, VrfError>(VrfError::MalformedEncoding),
            signature@.len() == 96 && input_derives(input_bytes@) && ietf_sig_decodes(signature@)
                && !ietf_verify_ok(self@, input_bytes@, aux@, signature@) ==> r == Err::<
                Vec<u8>,
                VrfError,
            >(VrfError::CryptoVerificationFailure),
    {
        if signature.len() != 96 {
            return Err(VrfError::MalformedEncoding);
        }
        let input = match VrfInput::derive(input_bytes) {
            Ok(input) => input,
            Err(_) => return Err(VrfError::MalformedEncoding),
        };
        match ietf_verify_raw(self, &input, aux, signature) {
            Err(e) => Err(e),
            Ok(None) => Err(VrfError::CryptoVerificationFailure),
            Ok(Some(hash)) => {
                let score = vstd::slice::slice_to_vec(
                    vstd::slice::slice_subrange(hash.as_slice(), 0, 32),
                );
                assert(score@ == score_of_signature(signature@));
                Ok(score)
            },
        }
    }
}

impl IetfVrfSignature {
    /// The canonical 96-byte encoding.
    pub fn to_bytes(&self) -> (r: Vec<u8>)
        ensures
            r@ == self@,
    {
        vstd::slice::slice_to_vec(self.bytes.as_slice())
    }

    /// Frame raw bytes as an IETF signature.  Checks the length alone;
    /// whether the content decodes is the verifier's to decide.
    pub fn from_bytes(bytes: &[u8]) -> (r: Result<IetfVrfSignature, VrfError>)
        ensures
            r is Ok <==> bytes@.len() == 96,
            r matches Ok(s) ==> s@ == bytes@,
            r is Err ==> r == Err::<IetfVrfSignature, VrfError>(VrfError::MalformedEncoding),
    {
        if bytes.len() != 96 {
            return Err(VrfError::MalformedEncoding);
        }
        Ok(IetfVrfSignature { bytes: vstd::slice::slice_to_vec(bytes) })
    }
}

/// Relies on `ark_vrf::Output` and `ietf::Proof` deserialization and
/// `Output::hash`: succeeds exactly when the 96 bytes decode as a signature,
/// and then returns the 64-byte hash of the decoded output point, whose
/// canonical encoding is the signature's first 32 bytes.
#[verifier::external_body]
fn ietf_output_hash_raw(sig: &[u8]) -> (r: Option<Vec<u8>>)
    requires
        sig@.len() == 96,
    ensures
        r is Some <==> ietf_sig_decodes(sig@),
        r matches Some(h) ==> h@ == point_hash_of(sig@.subrange(0, 32)) && h@.len() == 64,
{
    let Ok(output) = bs::Output::deserialize_compressed(&sig[..32]) else { return None };
    if bs::IetfProof::deserialize_compressed(&sig[32..]).is_err() {
        return None;
    }
    Some(output.hash().to_vec())
}

/// Extract the 32-byte output hash (the score) carried by a 96-byte IETF
/// signature, without verifying its proof.
///
/// Fails with `MalformedEncoding` exactly when the length is wrong or the
/// bytes do not decode as a signature.
pub fn get_ietf_signature_output(signature: &[u8]) -> (r: Result<Vec<u8>, VrfError>)
    ensures
        r is Ok <==> signature@.len() == 96 && ietf_sig_decodes(signature@),
        r matches Ok(score) ==> score@ == score_of_signature(signature@) && score@.len() == 32,
        r is Err ==> r == Err::<Vec<u8>, VrfError>(VrfError::MalformedEncoding),
{
    if signature.len() != 96 {
        return Err(VrfError::MalformedEncoding);
    }
    match ietf_output_hash_raw(signature) {
        Some(hash) => {
            let score = vstd::slice::slice_to_vec(
                vstd::slice::slice_subrange(hash.as_slice(), 0, 32),
            );
            assert(score@ == score_of_signature(signature@));
            Ok(score)
        },
        None => Err(VrfError::MalformedEncoding),
    }
}

} // verus!
