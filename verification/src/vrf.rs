//! VRF input derivation and output computation.
//!
//! A `VrfInput` is the canonical curve point for caller-supplied
//! domain-separated bytes, modelled by those bytes; a `VrfOutput` is the
//! point bound to a secret and an input, modelled by its 32-byte compressed
//! encoding.  The 32-byte score consumed by the surrounding protocol is the
//! truncated hash of the output point.

use vstd::prelude::*;

use ark_vrf::suites::bandersnatch as bs;
use ark_vrf::reexports::ark_serialize::CanonicalSerialize;

use crate::VrfError;
use crate::outside::{InputHandle, OutputHandle};
use crate::keys::Secret;
use crate::model::{input_derives, vrf_output_of, point_hash_of};

verus! {

/// A VRF input point, derived from arbitrary data by hash-to-curve.
/// Modelled by the data bytes it was derived from.
pub struct VrfInput {
    pub(crate) inner: InputHandle,
    pub(crate) data: Ghost<Seq<u8>>,
}

impl View for VrfInput {
    type V = Seq<u8>;

    open(crate) spec fn view(&self) -> Seq<u8> {
        self.data@
    }
}

/// A VRF output point, deterministically bound to a secret and an input.
/// Modelled by its canonical 32-byte compressed encoding.
pub struct VrfOutput {
    pub(crate) inner: OutputHandle,
    pub(crate) repr: Ghost<Seq<u8>>,
}

impl View for VrfOutput {
    type V = Seq<u8>;

    open(crate) spec fn view(&self) -> Seq<u8> {
        self.repr@
    }
}

/// Relies on `ark_vrf::Input::new` (Elligator2 hash-to-curve): the outcome,
/// success included, is a function of the data bytes alone.
#[verifier::external_body]
fn input_derive_raw(data: &[u8]) -> (r: Option<InputHandle>)
    ensures
        r is Some <==> input_derives(data@),
{
    bs::Input::new(data).map(|v| InputHandle { v })
}

/// Relies on `ark_vrf::Secret::output` and compressed point serialization:
/// the output point is the input point scaled by the secret scalar, a
/// function of seed and input data alone; serializing it yields the
/// canonical 32-byte encoding.
#[verifier::external_body]
fn secret_output_raw(secret: &Secret, input: &VrfInput) -> (r: (OutputHandle, Vec<u8>))
    ensures
        r.1@ == vrf_output_of(secret@, input@),
        r.1@.len() == 32,
{
    let output = secret.inner.v.output(input.inner.v);
    let mut buf = Vec::new();
    output.serialize_compressed(&mut buf).expect("point serialization is infallible");
    (OutputHandle { v: output }, buf)
}

/// Relies on `ark_vrf::Output::hash` (RFC-9381 proof-to-hash, SHA-512): a
/// 64-byte digest that is a function of the output point alone.
#[verifier::external_body]
fn output_hash_raw(output: &VrfOutput) -> (r: Vec<u8>)
    ensures
        r@ == point_hash_of(output@),
        r@.len() == 64,
{
    output.inner.v.hash().to_vec()
}

impl VrfInput {
    /// Derive the canonical input point for arbitrary data bytes.
    ///
    /// Deterministic and total but for the pathological case in which
    /// hash-to-curve finds no point, reported as `MalformedEncoding`.
    pub fn derive(data: &[u8]) -> (r: Result<VrfInput, VrfError>)
        ensures
            r is Ok <==> input_derives(data@),
            r matches Ok(p) ==> p@ == data@,
            r is Err ==> r == Err::<VrfInput, VrfError>(VrfError::MalformedEncoding),
    {
        match input_derive_raw(data) {
            Some(inner) => Ok(VrfInput { inner, data: Ghost(data@) }),
            None => Err(VrfError::MalformedEncoding),
        }
    }
}

impl Secret {
    /// The VRF output point for this secret over `input`; the same pair
    /// always yields the same output, whatever scheme later proves it.
    pub fn output(&self, input: &VrfInput) -> (r: VrfOutput)
        ensures
            r@ == vrf_output_of(self@, input@),
            r@.len() == 32,
    {
        let (inner, enc) = secret_output_raw(self, input);
        VrfOutput { inner, repr: Ghost(enc@) }
    }
}

impl VrfOutput {
    /// The 64-byte hash of the output point.
    pub fn hash(&self) -> (r: Vec<u8>)
        ensures
            r@ == point_hash_of(self@),
            r@.len() == 64,
    {
        output_hash_raw(self)
    }

    /// The 32-byte score (ticket value): the hash truncated to its first
    /// 32 bytes.
    pub fn score(&self) -> (r: Vec<u8>)
        ensures
            r@ == point_hash_of(self@).take(32),
            r@.len() == 32,
    {
        let hash = self.hash();
        let score = vstd::slice::slice_to_vec(vstd::slice::slice_subrange(hash.as_slice(), 0, 32));
        assert(score@ == point_hash_of(self@).take(32));
        score
    }
}

} // verus!
