//! Opaque handles around the outside crate's curve objects.
//!
//! The `ark-vrf` types are generic over a suite trait, which keeps their
//! declarations out of Verus's reach, so each is held in a struct whose body
//! Verus does not read.  A handle carries no knowledge: everything stated
//! about the values inside lives in the contracts of the trusted wrappers
//! that make and use them.

use vstd::prelude::*;

use ark_vrf::suites::bandersnatch as bs;

verus! {

/// Holds an `ark_vrf` bandersnatch secret key.
#[verifier::external_body]
pub struct SecretHandle {
    pub(crate) v: bs::Secret,
}

/// Holds an `ark_vrf` bandersnatch public key point.
#[verifier::external_body]
pub struct PublicHandle {
    pub(crate) v: bs::Public,
}

/// Holds an `ark_vrf` bandersnatch VRF input point.
#[verifier::external_body]
pub struct InputHandle {
    pub(crate) v: bs::Input,
}

/// Holds an `ark_vrf` bandersnatch VRF output point.
#[verifier::external_body]
pub struct OutputHandle {
    pub(crate) v: bs::Output,
}

/// Holds the `ark_vrf` bandersnatch ring proof parameters.
#[verifier::external_body]
pub struct ParamsHandle {
    pub(crate) v: bs::RingProofParams,
}

} // verus!
