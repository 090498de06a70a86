//! Rings: ordered anonymity sets of public keys, and their commitments.
//!
//! A ring is a sequence of slots, each either a present public key or
//! explicitly absent.  Absence is always declared by the caller — a key that
//! fails to decode is rejected by `Public::from_bytes`, never silently
//! replaced — and every absent slot is substituted by the fixed padding
//! point in one explicit step when the proving or verifying key is built.
//!
//! A ring commitment is the compact digest of a ring's verifier key: a pure
//! function of the ordered member set (after padding substitution) and the
//! context size, paid once per membership change and reused by verifiers
//! that never hold the full ring.

use vstd::prelude::*;

use ark_vrf::suites::bandersnatch as bs;
use ark_vrf::reexports::ark_serialize::{CanonicalDeserialize, CanonicalSerialize};

use crate::VrfError;
use crate::context::RingContext;
use crate::keys::Public;
use crate::model::{commitment_of, commitment_decodes, padding_of};

verus! {

/// One ring slot: a member's public key, or a slot declared absent by the
/// caller (to be substituted by the padding point).
pub enum RingSlot {
    Present(Public),
    Absent,
}

/// The model of a slot: the key's encoding, or nothing for an absent slot.
pub open spec fn slot_view(slot: RingSlot) -> Option<Seq<u8>> {
    match slot {
        RingSlot::Present(p) => Some(p@),
        RingSlot::Absent => None,
    }
}

/// An ordered anonymity set.  Order is significant: it fixes each member's
/// proving index and the commitment value.
pub struct Ring {
    pub(crate) slots: Vec<RingSlot>,
}

impl View for Ring {
    type V = Seq<Option<Seq<u8>>>;

    open(crate) spec fn view(&self) -> Seq<Option<Seq<u8>>> {
        self.slots@.map_values(|slot: RingSlot| slot_view(slot))
    }
}

/// The encodings of a sequence of public keys.
pub open spec fn keys_view(pts: Seq<Public>) -> Seq<Seq<u8>> {
    pts.map_values(|p: Public| p@)
}

/// The ring's key encodings after padding substitution: each absent slot
/// replaced by `pad`.
pub open spec fn padded_keys(slots: Seq<Option<Seq<u8>>>, pad: Seq<u8>) -> Seq<Seq<u8>> {
    slots.map_values(|slot: Option<Seq<u8>>| match slot {
        Some(k) => k,
        None => pad,
    })
}

impl Ring {
    /// Assemble a ring from its ordered slots.
    pub fn new(slots: Vec<RingSlot>) -> (r: Ring)
        ensures
            r@ == slots@.map_values(|slot: RingSlot| slot_view(slot)),
    {
        Ring { slots }
    }

    /// The number of slots, absent ones included.
    pub fn len(&self) -> (r: usize)
        ensures
            r == self@.len(),
    {
        self.slots.len()
    }

    /// The ring's public key points with every absent slot replaced by the
    /// context's fixed padding point: the one explicit substitution step on
    /// the way to a proving or verifying key.
    pub fn points(&self, ctx: &RingContext) -> (r: Vec<Public>)
        ensures
            r@.len() == self@.len(),
            keys_view(r@) == padded_keys(self@, padding_of(ctx.spec_size())),
    {
        let ghost pad_enc = padding_of(ctx.spec_size());
        let pad = ctx.padding_point();
        let mut pts: Vec<Public> = Vec::new();
        let mut i: usize = 0;
        while i < self.slots.len()
            invariant
                i <= self.slots.len(),
                pad@ == pad_enc,
                pts@.len() == i,
                forall|j: int|
                    0 <= j < i ==> #[trigger] pts@[j]@ == padded_keys(self@, pad_enc)[j],
            decreases self.slots.len() - i,
        {
            match &self.slots[i] {
                RingSlot::Present(p) => pts.push(p.dup()),
                RingSlot::Absent => pts.push(pad.dup()),
            }
            i = i + 1;
        }
        proof {
            assert(keys_view(pts@) =~= padded_keys(self@, pad_enc));
        }
        pts
    }
}

/// A compact, serializable digest of a ring's verifier key, reproducible
/// from the same ordered ring and context size.  Holds its canonical
/// 144-byte encoding.
pub struct RingCommitment {
    pub(crate) bytes: Vec<u8>,
}

impl View for RingCommitment {
    type V = Seq<u8>;

    open(crate) spec fn view(&self) -> Seq<u8> {
        self.bytes@
    }
}

impl RingCommitment {
    /// Every commitment value in circulation holds a well-formed encoding.
    #[verifier::type_invariant]
    pub(crate) open spec fn inv(self) -> bool {
        commitment_wf(self.bytes@)
    }
}

/// A well-formed commitment encoding: 144 bytes that decode back into a
/// commitment.  Every constructor of `RingCommitment` establishes this.
pub open spec fn commitment_wf(c: Seq<u8>) -> bool {
    c.len() == 144 && commitment_decodes(c)
}

/// Relies on `ark_vrf::ring::RingProofParams::verifier_key`,
/// `RingVerifierKey::commitment` and compressed serialization: the committed
/// fixed columns are a function of the ordered key points and the
/// parameters (themselves fixed per size); their encoding takes 144 bytes
/// and deserializes back.
#[verifier::external_body]
fn ring_commitment_raw(ctx: &RingContext, pts: &Vec<Public>) -> (r: Vec<u8>)
    requires
        pts@.len() <= ctx.spec_size(),
    ensures
        r@ == commitment_of(ctx.spec_size(), keys_view(pts@)),
        r@.len() == 144,
        commitment_decodes(r@),
{
    let points: Vec<bs::AffinePoint> = pts.iter().map(|p| p.inner.v.0).collect();
    let verifier_key = ctx.inner.v.verifier_key(&points);
    let commitment = verifier_key.commitment();
    let mut buf = Vec::new();
    commitment.serialize_compressed(&mut buf).expect("commitment serialization is infallible");
    buf
}

/// Relies on `ark_vrf::ring::RingCommitment` deserialization: succeeds
/// exactly on 144 bytes that canonically encode the three committed column
/// points.
#[verifier::external_body]
fn commitment_check_raw(bytes: &[u8]) -> (r: bool)
    requires
        bytes@.len() == 144,
    ensures
        r == commitment_decodes(bytes@),
{
    bs::RingCommitment::deserialize_compressed(bytes).is_ok()
}

impl RingCommitment {
    /// Digest the ring's verifier key: deterministic, so two calls over
    /// equal ordered rings yield byte-identical commitments.
    ///
    /// Fails with `InvalidArgument` exactly when the ring has more slots
    /// than the context serves.
    pub fn from_ring(ring: &Ring, ctx: &RingContext) -> (r: Result<RingCommitment, VrfError>)
        ensures
            r is Ok <==> ring@.len() <= ctx.spec_size(),
            r matches Ok(c) ==> c@ == commitment_of(
                ctx.spec_size(),
                padded_keys(ring@, padding_of(ctx.spec_size())),
            ) && commitment_wf(c@),
            r is Err ==> r == Err::<RingCommitment, VrfError>(VrfError::InvalidArgument),
    {
        if ring.len() > ctx.size() {
            return Err(VrfError::InvalidArgument);
        }
        let pts = ring.points(ctx);
        let bytes = ring_commitment_raw(ctx, &pts);
        Ok(RingCommitment { bytes })
    }

    /// Decode a commitment from its canonical 144-byte form.
    ///
    /// Fails with `MalformedEncoding` exactly when the input is not 144
    /// bytes or the bytes do not decode to a commitment.
    pub fn from_bytes(bytes: &[u8]) -> (r: Result<RingCommitment, VrfError>)
        ensures
            r is Ok <==> commitment_wf(bytes@),
            r matches Ok(c) ==> c@ == bytes@,
            r is Err ==> r == Err::<RingCommitment, VrfError>(VrfError::MalformedEncoding),
    {
        if bytes.len() != 144 {
            return Err(VrfError::MalformedEncoding);
        }
        if !commitment_check_raw(bytes) {
            return Err(VrfError::MalformedEncoding);
        }
        Ok(RingCommitment { bytes: vstd::slice::slice_to_vec(bytes) })
    }

    /// The canonical 144-byte encoding.
    pub fn to_bytes(&self) -> (r: Vec<u8>)
        ensures
            r@ == self@,
    {
        vstd::slice::slice_to_vec(self.bytes.as_slice())
    }
}

} // verus!
