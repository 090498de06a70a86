//! Signer identities: the secret scalar and its public curve point.
//!
//! A `Secret` is modelled by the seed it was derived from, a `Public` by its
//! canonical 32-byte compressed encoding.  Each constructor sets the model
//! from the bytes actually observed at the boundary, so the coupling between
//! a value's opaque curve representation and its model is established where
//! the value is made and relied upon by every trusted wrapper.

use vstd::prelude::*;

use ark_vrf::suites::bandersnatch as bs;
use ark_vrf::reexports::ark_serialize::{CanonicalDeserialize, CanonicalSerialize};

use crate::VrfError;
use crate::outside::{SecretHandle, PublicHandle};
use crate::model::{public_key_of, public_decodes};

verus! {

/// A signer's private key material, derived deterministically from a seed.
///
/// Never transmitted; pass it by reference.  The model of a `Secret` is the
/// seed itself: every contract about a secret speaks of the bytes it was
/// derived from.
pub struct Secret {
    pub(crate) inner: SecretHandle,
    pub(crate) seed: Ghost<Seq<u8>>,
}

impl View for Secret {
    type V = Seq<u8>;

    open(crate) spec fn view(&self) -> Seq<u8> {
        self.seed@
    }
}

/// A signer's public key: a curve point, modelled by its canonical 32-byte
/// compressed encoding, held beside the point in the `repr` field.
pub struct Public {
    pub(crate) inner: PublicHandle,
    pub(crate) repr: Ghost<Seq<u8>>,
}

impl View for Public {
    type V = Seq<u8>;

    open(crate) spec fn view(&self) -> Seq<u8> {
        self.repr@
    }
}

/// A well-formed public key: 32 bytes that decode back into a point.
/// Every constructor of `Public` establishes this.
pub open spec fn public_wf(pk: Seq<u8>) -> bool {
    pk.len() == 32 && public_decodes(pk)
}

/// What `Public::from_bytes` yields, at the level of models: well-formed
/// bytes come back unchanged as a key, all others are rejected.
pub open spec fn spec_public_from_bytes(bytes: Seq<u8>) -> Option<Seq<u8>> {
    if public_wf(bytes) {
        Some(bytes)
    } else {
        None
    }
}

/// Relies on `ark_vrf::Secret::from_seed`: hashes the seed and reduces to a
/// nonzero scalar; total for every byte sequence.
#[verifier::external_body]
fn secret_from_seed_raw(seed: &[u8]) -> SecretHandle {
    SecretHandle { v: bs::Secret::from_seed(seed) }
}

/// Relies on `ark_vrf::Secret::public` and compressed point serialization:
/// the public key point is the generator scaled by the secret scalar, a
/// function of the seed alone; serializing it yields the canonical 32-byte
/// encoding, which deserializes back into the same subgroup point.
#[verifier::external_body]
fn secret_public_raw(secret: &Secret) -> (r: (PublicHandle, Vec<u8>))
    ensures
        r.1@ == public_key_of(secret@),
        r.1@.len() == 32,
        public_decodes(r.1@),
{
    let public = secret.inner.v.public();
    let mut buf = Vec::new();
    public.serialize_compressed(&mut buf).expect("point serialization is infallible");
    (PublicHandle { v: public }, buf)
}

/// Relies on compressed point serialization of `ark_vrf::Public`: writes the
/// canonical 32-byte encoding, the value a `Public` is modelled by.
#[verifier::external_body]
fn public_encode_raw(public: &Public) -> (r: Vec<u8>)
    ensures
        r@ == public@,
{
    let mut buf = Vec::new();
    public.inner.v.serialize_compressed(&mut buf).expect("point serialization is infallible");
    buf
}

/// Relies on the outside key point being a plain copyable curve point:
/// duplicating the handle duplicates the point.
#[verifier::external_body]
fn public_handle_dup(h: &PublicHandle) -> PublicHandle {
    PublicHandle { v: h.v }
}

/// Relies on `ark_vrf::Public` deserialization: succeeds exactly on 32 bytes
/// that canonically encode a curve point of the prime-order subgroup, and
/// the decoded point re-encodes to the same bytes.
#[verifier::external_body]
fn public_decode_raw(bytes: &[u8]) -> (r: Option<PublicHandle>)
    requires
        bytes@.len() == 32,
    ensures
        r is Some <==> public_decodes(bytes@),
{
    bs::Public::deserialize_compressed(bytes).ok().map(|v| PublicHandle { v })
}

impl Secret {
    /// Derive the secret deterministically from a seed.  Total: every byte
    /// sequence, including the empty one, yields a key.
    pub fn from_seed(seed: &[u8]) -> (r: Secret)
        ensures
            r@ == seed@,
    {
        Secret { inner: secret_from_seed_raw(seed), seed: Ghost(seed@) }
    }

    /// The public counterpart: the curve point bound to this secret.
    pub fn public(&self) -> (r: Public)
        ensures
            r@ == public_key_of(self@),
            public_wf(r@),
    {
        let (inner, enc) = secret_public_raw(self);
        Public { inner, repr: Ghost(enc@) }
    }
}

impl Public {
    /// An owned duplicate of this key, with the same point and model.
    pub fn dup(&self) -> (r: Public)
        ensures
            r@ == self@,
    {
        Public { inner: public_handle_dup(&self.inner), repr: Ghost(self.repr@) }
    }

    /// Canonical compressed form; round-trips with `from_bytes`.
    pub fn to_bytes(&self) -> (r: Vec<u8>)
        ensures
            r@ == self@,
    {
        public_encode_raw(self)
    }

    /// Decode a public key from its canonical 32-byte compressed form.
    ///
    /// Fails with `MalformedEncoding` exactly when the input is not 32 bytes
    /// or the bytes do not decode to a valid point.
    pub fn from_bytes(bytes: &[u8]) -> (r: Result<Public, VrfError>)
        ensures
            r is Ok <==> public_wf(bytes@),
            r matches Ok(p) ==> spec_public_from_bytes(bytes@) == Some(p@),
            r matches Ok(p) ==> p@ == bytes@,
            r is Err ==> r == Err::<Public, VrfError>(VrfError::MalformedEncoding),
    {
        if bytes.len() != 32 {
            return Err(VrfError::MalformedEncoding);
        }
        match public_decode_raw(bytes) {
            Some(inner) => Ok(Public { inner, repr: Ghost(bytes@) }),
            None => Err(VrfError::MalformedEncoding),
        }
    }
}

} // verus!
