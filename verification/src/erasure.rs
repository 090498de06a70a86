//! Parameter marshaling for Reed-Solomon erasure coding.
//!
//! The coding mathematics is the `reed-solomon-simd` crate's work, consumed
//! as a capability; what this module owns — and verifies — is the shard
//! bookkeeping around it: the validity checks on counts and sizes that the
//! calls demand, and the exact conditions under which each failure is
//! reported.

use vstd::prelude::*;

verus! {

/// Failure taxonomy for the erasure-coding calls.
///
/// - `InvalidArgument`: empty data, a zero count or size, or shards that do
///   not match the declared shard size.
/// - `InvalidShardSize`: an odd shard size, which the coder cannot split
///   into its two-byte symbols.
/// - `CodingFailure`: the coder itself refused the request (unsupported
///   shard counts, bad indices, or too few shards to recover).
#[derive(Debug, Clone, Copy, PartialEq, Eq, Structural)]
pub enum ErasureError {
    InvalidArgument,
    InvalidShardSize,
    CodingFailure,
}

/// Whether the coder accepts this pair of original and recovery counts.
/// Names `reed_solomon_simd::ReedSolomonEncoder::supports` (the decoder's
/// bound is the same).
pub uninterp spec fn rs_supported(original_count: nat, recovery_count: nat) -> bool;

/// The `recovery_count` recovery shards computed from the original shards:
/// pure field arithmetic, a function of its arguments.  Names the result of
/// `reed_solomon_simd::encode`.
pub uninterp spec fn rs_recovery_of(shards: Seq<Seq<u8>>, recovery_count: nat) -> Seq<Seq<u8>>;

#[verifier::external_type_specification]
#[verifier::external_body]
pub struct ExRsError(reed_solomon_simd::Error);

/// One erasure-coded fragment: its payload and its position in the coding.
pub struct Shard {
    pub(crate) data: Vec<u8>,
    pub(crate) index: u32,
}

impl View for Shard {
    type V = (Seq<u8>, nat);

    open(crate) spec fn view(&self) -> (Seq<u8>, nat) {
        (self.data@, self.index as nat)
    }
}

impl Shard {
    /// Make a shard from its payload and position.
    ///
    /// Fails with `InvalidArgument` exactly when the payload is empty.
    pub fn new(data: Vec<u8>, index: u32) -> (r: Result<Shard, ErasureError>)
        ensures
            r is Ok <==> data@.len() > 0,
            r matches Ok(s) ==> s@ == (data@, index as nat),
            r is Err ==> r == Err::<Shard, ErasureError>(ErasureError::InvalidArgument),
    {
        if data.len() == 0 {
            return Err(ErasureError::InvalidArgument);
        }
        Ok(Shard { data, index })
    }

    /// The shard's payload.
    pub fn data(&self) -> (r: &Vec<u8>)
        ensures
            r@ == self@.0,
    {
        &self.data
    }

    /// The shard's position in the coding.
    pub fn index(&self) -> (r: u32)
        ensures
            r as nat == self@.1,
    {
        self.index
    }
}

/// The byte sequences of a sequence of byte vectors.
pub open spec fn bytes_view(shards: Seq<Vec<u8>>) -> Seq<Seq<u8>> {
    shards.map_values(|shard: Vec<u8>| shard@)
}

/// Every shard of `shards` is exactly `size` bytes long.
pub open spec fn shards_sized(shards: Seq<Seq<u8>>, size: nat) -> bool {
    forall|i: int| 0 <= i < shards.len() ==> #[trigger] shards[i].len() == size
}

/// Every payload among the `(index, payload)` pairs is exactly `size`
/// bytes long.
pub open spec fn pairs_sized(pairs: Seq<(usize, Vec<u8>)>, size: nat) -> bool {
    forall|i: int| 0 <= i < pairs.len() ==> (#[trigger] pairs[i]).1@.len() == size
}

/// Relies on `reed_solomon_simd::encode`: with positive counts, uniform
/// even-sized shards, it fails exactly when the count pair is unsupported,
/// and otherwise returns the `recovery_count` recovery shards of the same
/// size, a deterministic function of the original shards.
#[verifier::external_body]
fn rs_encode_raw(original: &Vec<Vec<u8>>, recovery_count: usize, shard_size: usize) -> (r: Result<
    Vec<Vec<u8>>,
    reed_solomon_simd::Error,
>)
    requires
        original@.len() > 0,
        recovery_count > 0,
        shard_size > 0,
        shard_size % 2 == 0,
        shards_sized(bytes_view(original@), shard_size as nat),
    ensures
        r is Ok <==> rs_supported(original@.len() as nat, recovery_count as nat),
        r matches Ok(v) ==> bytes_view(v@) == rs_recovery_of(
            bytes_view(original@),
            recovery_count as nat,
        ),
        r matches Ok(v) ==> v@.len() == recovery_count && shards_sized(
            bytes_view(v@),
            shard_size as nat,
        ),
{
    reed_solomon_simd::encode(original.len(), recovery_count, original.iter())
}

/// Relies on `reed_solomon_simd::decode`: restores missing original shards
/// from any sufficient subset of original and recovery shards.  Of a
/// successful call only this is stated: every restored shard carries an
/// index below the original count and a payload of the recovery shards'
/// size.
#[verifier::external_body]
fn rs_decode_raw(
    original_count: usize,
    recovery_count: usize,
    original: &Vec<(usize, Vec<u8>)>,
    recovery: &Vec<(usize, Vec<u8>)>,
    shard_size: usize,
) -> (r: Result<Vec<(usize, Vec<u8>)>, reed_solomon_simd::Error>)
    requires
        pairs_sized(recovery@, shard_size as nat),
    ensures
        r matches Ok(m) ==> forall|i: int|
            0 <= i < m@.len() ==> (#[trigger] m@[i]).0 < original_count && m@[i].1@.len()
                == shard_size,
{
    let original_pairs: Vec<(usize, &[u8])> =
        original.iter().map(|p| (p.0, p.1.as_slice())).collect();
    let recovery_pairs: Vec<(usize, &[u8])> =
        recovery.iter().map(|p| (p.0, p.1.as_slice())).collect();
    match reed_solomon_simd::decode(original_count, recovery_count, original_pairs, recovery_pairs)
    {
        Ok(restored) => Ok(restored.into_iter().collect()),
        Err(e) => Err(e),
    }
}

/// Compute `recovery_count` recovery shards over the original shards.
///
/// Fails with `InvalidArgument` when there are no originals, no recovery
/// shards are asked for, the size is zero or a shard differs from it; with
/// `InvalidShardSize` when the size is odd; with `CodingFailure` exactly
/// when the coder does not support the count pair.
pub fn reed_solomon_encode(
    original: &Vec<Vec<u8>>,
    recovery_count: usize,
    shard_size: usize,
) -> (r: Result<Vec<Vec<u8>>, ErasureError>)
    ensures
        r is Ok <==> original@.len() > 0 && recovery_count > 0 && shard_size > 0 && shard_size % 2
            == 0 && shards_sized(bytes_view(original@), shard_size as nat) && rs_supported(
            original@.len() as nat,
            recovery_count as nat,
        ),
        r matches Ok(v) ==> bytes_view(v@) == rs_recovery_of(
            bytes_view(original@),
            recovery_count as nat,
        ) && v@.len() == recovery_count && shards_sized(bytes_view(v@), shard_size as nat),
        original@.len() == 0 || recovery_count == 0 || shard_size == 0 ==> r == Err::<
            Vec<Vec<u8>>,
            ErasureError,
        >(ErasureError::InvalidArgument),
        original@.len() > 0 && recovery_count > 0 && shard_size > 0 && shard_size % 2 != 0 ==> r
            == Err::<Vec<Vec<u8>>, ErasureError>(ErasureError::InvalidShardSize),
{
    if original.len() == 0 || recovery_count == 0 || shard_size == 0 {
        return Err(ErasureError::InvalidArgument);
    }
    if shard_size % 2 != 0 {
        return Err(ErasureError::InvalidShardSize);
    }
    let mut i: usize = 0;
    while i < original.len()
        invariant
            i <= original@.len(),
            original@.len() > 0,
            recovery_count > 0,
            shard_size > 0,
            shard_size % 2 == 0,
            forall|j: int| 0 <= j < i ==> #[trigger] bytes_view(original@)[j].len() == shard_size,
        decreases original@.len() - i,
    {
        if original[i].len() != shard_size {
            assert(bytes_view(original@)[i as int].len() != shard_size);
            return Err(ErasureError::InvalidArgument);
        }
        assert(bytes_view(original@)[i as int].len() == shard_size);
        i = i + 1;
    }
    assert(shards_sized(bytes_view(original@), shard_size as nat));
    match rs_encode_raw(original, recovery_count, shard_size) {
        Ok(v) => Ok(v),
        Err(_) => Err(ErasureError::CodingFailure),
    }
}

/// Restore the original shards from a sufficient subset of original and
/// recovery shards, returning the restored `(index, payload)` pairs.
///
/// Fails with `InvalidArgument` when a count or the size is zero or a shard
/// differs from the declared size; with `InvalidShardSize` when the size is
/// odd; with `CodingFailure` when the coder refuses the request (bad
/// indices, unsupported counts, or too few shards).
pub fn reed_solomon_recovery(
    original_count: usize,
    recovery_count: usize,
    original_shards: &Vec<Shard>,
    recovery_shards: &Vec<Shard>,
    shard_size: usize,
) -> (r: Result<Vec<(usize, Vec<u8>)>, ErasureError>)
    ensures
        r matches Ok(m) ==> forall|i: int|
            0 <= i < m@.len() ==> (#[trigger] m@[i]).0 < original_count && m@[i].1@.len()
                == shard_size,
        original_count == 0 || recovery_count == 0 || shard_size == 0 ==> r == Err::<
            Vec<(usize, Vec<u8>)>,
            ErasureError,
        >(ErasureError::InvalidArgument),
        original_count > 0 && recovery_count > 0 && shard_size > 0 && shard_size % 2 != 0 ==> r
            == Err::<Vec<(usize, Vec<u8>)>, ErasureError>(ErasureError::InvalidShardSize),
{
    if original_count == 0 || recovery_count == 0 || shard_size == 0 {
        return Err(ErasureError::InvalidArgument);
    }
    if shard_size % 2 != 0 {
        return Err(ErasureError::InvalidShardSize);
    }
    let mut original_pairs: Vec<(usize, Vec<u8>)> = Vec::new();
    let mut i: usize = 0;
    while i < original_shards.len()
        invariant
            i <= original_shards@.len(),
            original_count > 0,
            recovery_count > 0,
            shard_size > 0,
            shard_size % 2 == 0,
        decreases original_shards@.len() - i,
    {
        if original_shards[i].data().len() != shard_size {
            return Err(ErasureError::InvalidArgument);
        }
        let pair = (
            original_shards[i].index() as usize,
            vstd::slice::slice_to_vec(original_shards[i].data().as_slice()),
        );
        original_pairs.push(pair);
        i = i + 1;
    }
    let mut recovery_pairs: Vec<(usize, Vec<u8>)> = Vec::new();
    let mut j: usize = 0;
    while j < recovery_shards.len()
        invariant
            j <= recovery_shards@.len(),
            original_count > 0,
            recovery_count > 0,
            shard_size > 0,
            shard_size % 2 == 0,
            pairs_sized(recovery_pairs@, shard_size as nat),
            recovery_pairs@.len() == j,
        decreases recovery_shards@.len() - j,
    {
        if recovery_shards[j].data().len() != shard_size {
            return Err(ErasureError::InvalidArgument);
        }
        let pair = (
            recovery_shards[j].index() as usize,
            vstd::slice::slice_to_vec(recovery_shards[j].data().as_slice()),
        );
        recovery_pairs.push(pair);
        j = j + 1;
    }
    match rs_decode_raw(original_count, recovery_count, &original_pairs, &recovery_pairs, shard_size) {
        Ok(m) => Ok(m),
        Err(_) => Err(ErasureError::CodingFailure),
    }
}

} // verus!
