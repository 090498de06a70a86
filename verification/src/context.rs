//! Ring proof context: the shared parameters for ring proofs of one size.
//!
//! A context is built once per supported ring size from a fixed seed, shared
//! read-only by every prover and verifier of that size, and immutable
//! thereafter.  The parameters are a deterministic function of the size
//! alone, so every participant that builds a context for a size holds the
//! same parameters; the caching of one context per size for a process's
//! lifetime is the embedding application's concern.

use vstd::prelude::*;

use ark_vrf::suites::bandersnatch as bs;
use ark_vrf::reexports::ark_serialize::CanonicalSerialize;

use crate::keys::Public;
use crate::outside::{ParamsHandle, PublicHandle};
use crate::model::padding_of;

verus! {

/// The largest ring size a context can be requested for; keeps the domain
/// sizes derived by the ring proof backend far from machine limits.
pub const MAX_RING_SIZE: usize = 0x0fffffff;

/// Shared parameters for ring proofs over rings of up to `size` members.
///
/// Immutable once built; pass it by shared reference.  Modelled by the size
/// it was requested for: the underlying reference string is a deterministic
/// function of that size.
pub struct RingContext {
    pub(crate) inner: ParamsHandle,
    pub(crate) size: usize,
}

impl RingContext {
    /// The ring size this context was built for.
    pub open(crate) spec fn spec_size(&self) -> nat {
        self.size as nat
    }
}

/// Relies on `ark_vrf::ring::RingProofParams::from_seed`: builds the KZG
/// reference string and PIOP parameters for `size` ring members from a
/// ChaCha20 stream with a fixed seed, so the parameters are a deterministic
/// function of the size, identical for every caller.
#[verifier::external_body]
fn params_from_seed_raw(size: usize) -> ParamsHandle {
    ParamsHandle { v: bs::RingProofParams::from_seed(size, [RING_SEED_BYTE; 32]) }
}

/// The byte repeated to form the 32-byte seed of the ring reference string.
pub const RING_SEED_BYTE: u8 = 0x2a;

/// Relies on `ark_vrf::ring::RingProofParams::padding_point`: the fixed,
/// publicly known point of unknown discrete log substituted for absent ring
/// slots; a suite constant, so in particular fixed per context size.  The
/// returned encoding is its compressed serialization.
#[verifier::external_body]
fn padding_point_raw(ctx: &RingContext) -> (r: (PublicHandle, Vec<u8>))
    ensures
        r.1@ == padding_of(ctx.spec_size()),
        r.1@.len() == 32,
{
    let point = ark_vrf::Public(bs::RingProofParams::padding_point());
    let mut buf = Vec::new();
    point.serialize_compressed(&mut buf).expect("point serialization is infallible");
    (PublicHandle { v: point }, buf)
}

/// The deterministic ring proof parameters for rings of up to `size`
/// members.  This is the context's only construction path, so every
/// context of one size carries the same reference string.
pub fn ring_context_params(size: usize) -> (r: RingContext)
    requires
        1 <= size <= MAX_RING_SIZE,
    ensures
        r.spec_size() == size,
{
    RingContext { inner: params_from_seed_raw(size), size }
}

/// Build the shared context for rings of up to `size` members.
pub fn ring_context(size: usize) -> (r: Option<RingContext>)
    ensures
        r is Some <==> 1 <= size <= MAX_RING_SIZE,
        r matches Some(c) ==> c.spec_size() == size,
{
    if 1 <= size && size <= MAX_RING_SIZE {
        Some(ring_context_params(size))
    } else {
        None
    }
}

impl RingContext {
    /// Build the shared context for rings of up to `size` members.
    pub fn new(size: usize) -> (r: RingContext)
        requires
            1 <= size <= MAX_RING_SIZE,
        ensures
            r.spec_size() == size,
    {
        ring_context_params(size)
    }

    /// The ring size this context serves.
    pub fn size(&self) -> (r: usize)
        ensures
            r == self.spec_size(),
    {
        self.size
    }

    /// The fixed padding point substituted for absent ring slots: a
    /// protocol constant, identical for every context of this size.
    pub fn padding_point(&self) -> (r: Public)
        ensures
            r@ == padding_of(self.spec_size()),
            r@.len() == 32,
    {
        let (inner, enc) = padding_point_raw(self);
        Public { inner, repr: Ghost(enc@) }
    }
}

} // verus!
