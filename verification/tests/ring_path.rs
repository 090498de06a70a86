use bandersnatch_vrfs::VrfError;
use bandersnatch_vrfs::context::{ring_context, RingContext};
use bandersnatch_vrfs::keys::{Public, Secret};
use bandersnatch_vrfs::ring::{Ring, RingCommitment, RingSlot};
use bandersnatch_vrfs::ring_vrf::{RingProver, RingVerifier};

fn member(i: u8) -> Secret {
    Secret::from_seed(&[i; 32])
}

fn six_member_ring() -> Ring {
    let slots = (0u8..6).map(|i| RingSlot::Present(member(i).public())).collect();
    Ring::new(slots)
}

#[test]
fn ring_sign_verify_scenario() {
    // a fixed 6-member ring, a ticket-seal style input, empty aux data
    let ctx = RingContext::new(6);
    let ring = six_member_ring();
    let signer = member(3);
    let input = b"jam_ticket_seal fixed entropy 0123456789abcdef";
    let aux = b"";

    let prover = RingProver::new(&ring, &ctx, 3).unwrap();
    let signature = prover.sign(&signer, input, aux).unwrap();
    let bytes = signature.to_bytes();
    assert_eq!(bytes.len(), 784);

    let commitment = RingCommitment::from_ring(&ring, &ctx).unwrap();
    assert_eq!(commitment.to_bytes().len(), 144);

    let verifier = RingVerifier::from_commitment(&commitment, &ctx);
    let score = verifier.verify(&bytes, input, aux).unwrap();
    assert_eq!(score.len(), 32);

    // determinism of the score: the same signer over the same input again
    let signature2 = prover.sign(&signer, input, aux).unwrap().to_bytes();
    assert_eq!(signature2[..32], bytes[..32]);
    let score2 = verifier.verify(&signature2, input, aux).unwrap();
    assert_eq!(score2, score);

    // scheme independence of the score: the IETF path, other aux data
    let ietf_sig = signer.prove_ietf(input, b"other aux").unwrap().to_bytes();
    let ietf_score = signer.public().verify_ietf(&ietf_sig, input, b"other aux").unwrap();
    assert_eq!(ietf_score, score);
}

#[test]
fn ring_verify_rejects_wrong_claims() {
    let ctx = RingContext::new(6);
    let ring = six_member_ring();
    let signer = member(2);
    let prover = RingProver::new(&ring, &ctx, 2).unwrap();
    let sig = prover.sign(&signer, b"input", b"aux").unwrap().to_bytes();
    let commitment = RingCommitment::from_ring(&ring, &ctx).unwrap();
    let verifier = RingVerifier::from_commitment(&commitment, &ctx);

    assert!(verifier.verify(&sig, b"input", b"aux").is_ok());
    assert_eq!(
        verifier.verify(&sig, b"other input", b"aux").unwrap_err(),
        VrfError::CryptoVerificationFailure
    );
    assert_eq!(
        verifier.verify(&sig, b"input", b"other aux").unwrap_err(),
        VrfError::CryptoVerificationFailure
    );

    // a signer whose key sits at another position than claimed
    let wrong_prover = RingProver::new(&ring, &ctx, 4).unwrap();
    let wrong_sig = wrong_prover.sign(&signer, b"input", b"aux").unwrap().to_bytes();
    assert_eq!(
        verifier.verify(&wrong_sig, b"input", b"aux").unwrap_err(),
        VrfError::CryptoVerificationFailure
    );
}

#[test]
fn ring_verify_rejects_malformed_bytes() {
    let ctx = RingContext::new(6);
    let ring = six_member_ring();
    let commitment = RingCommitment::from_ring(&ring, &ctx).unwrap();
    let verifier = RingVerifier::from_commitment(&commitment, &ctx);

    for len in [0usize, 96, 783, 785] {
        let bytes = vec![0u8; len];
        assert_eq!(
            verifier.verify(&bytes, b"input", b"aux").unwrap_err(),
            VrfError::MalformedEncoding
        );
    }
    let garbage = vec![0xffu8; 784];
    assert_eq!(
        verifier.verify(&garbage, b"input", b"aux").unwrap_err(),
        VrfError::MalformedEncoding
    );
}

#[test]
fn commitments_bind_membership_and_order() {
    let ctx = RingContext::new(6);
    let ring1 = six_member_ring();
    let commitment1 = RingCommitment::from_ring(&ring1, &ctx).unwrap();

    // the same ordered ring commits to the same bytes
    let again = RingCommitment::from_ring(&six_member_ring(), &ctx).unwrap();
    assert_eq!(again.to_bytes(), commitment1.to_bytes());

    // a ring with one member replaced commits differently
    let mut slots: Vec<RingSlot> = (0u8..6).map(|i| RingSlot::Present(member(i).public())).collect();
    slots[2] = RingSlot::Present(member(42).public());
    let ring2 = Ring::new(slots);
    let commitment2 = RingCommitment::from_ring(&ring2, &ctx).unwrap();
    assert_ne!(commitment2.to_bytes(), commitment1.to_bytes());

    // a ring with two members swapped commits differently
    let mut swapped: Vec<RingSlot> = (0u8..6).map(|i| RingSlot::Present(member(i).public())).collect();
    swapped.swap(1, 4);
    let ring3 = Ring::new(swapped);
    let commitment3 = RingCommitment::from_ring(&ring3, &ctx).unwrap();
    assert_ne!(commitment3.to_bytes(), commitment1.to_bytes());

    // a verifier for ring2 rejects a signature valid against ring1
    let signer = member(0);
    let prover = RingProver::new(&ring1, &ctx, 0).unwrap();
    let sig = prover.sign(&signer, b"input", b"").unwrap().to_bytes();
    let verifier1 = RingVerifier::from_commitment(&commitment1, &ctx);
    let verifier2 = RingVerifier::from_commitment(&commitment2, &ctx);
    assert!(verifier1.verify(&sig, b"input", b"").is_ok());
    assert_eq!(
        verifier2.verify(&sig, b"input", b"").unwrap_err(),
        VrfError::CryptoVerificationFailure
    );
}

#[test]
fn absent_slots_pad_and_cannot_sign() {
    let ctx = RingContext::new(6);

    // an absent slot and an explicitly placed padding point commit alike
    let mut with_absent: Vec<RingSlot> =
        (0u8..5).map(|i| RingSlot::Present(member(i).public())).collect();
    with_absent.push(RingSlot::Absent);
    let ring_absent = Ring::new(with_absent);

    let mut with_padding: Vec<RingSlot> =
        (0u8..5).map(|i| RingSlot::Present(member(i).public())).collect();
    with_padding.push(RingSlot::Present(ctx.padding_point()));
    let ring_padding = Ring::new(with_padding);

    let commitment_absent = RingCommitment::from_ring(&ring_absent, &ctx).unwrap();
    let commitment_padding = RingCommitment::from_ring(&ring_padding, &ctx).unwrap();
    assert_eq!(commitment_absent.to_bytes(), commitment_padding.to_bytes());

    // no signature claiming the absent position verifies
    let outsider = member(9);
    let prover = RingProver::new(&ring_absent, &ctx, 5).unwrap();
    let sig = prover.sign(&outsider, b"input", b"").unwrap().to_bytes();
    let verifier = RingVerifier::from_commitment(&commitment_absent, &ctx);
    assert_eq!(
        verifier.verify(&sig, b"input", b"").unwrap_err(),
        VrfError::CryptoVerificationFailure
    );
}

#[test]
fn commitment_byte_roundtrip() {
    let ctx = RingContext::new(6);
    let ring = six_member_ring();
    let commitment = RingCommitment::from_ring(&ring, &ctx).unwrap();
    let bytes = commitment.to_bytes();
    let decoded = RingCommitment::from_bytes(&bytes).unwrap();
    assert_eq!(decoded.to_bytes(), bytes);

    assert!(matches!(
        RingCommitment::from_bytes(&bytes[..143]),
        Err(VrfError::MalformedEncoding)
    ));
    assert!(matches!(
        RingCommitment::from_bytes(&vec![0xffu8; 144]),
        Err(VrfError::MalformedEncoding)
    ));
}

#[test]
fn prover_and_commitment_argument_checks() {
    let ctx = RingContext::new(2);
    let slots: Vec<RingSlot> = (0u8..3).map(|i| RingSlot::Present(member(i).public())).collect();
    let too_big = Ring::new(slots);
    assert!(matches!(
        RingProver::new(&too_big, &ctx, 0),
        Err(VrfError::InvalidArgument)
    ));
    assert!(matches!(
        RingCommitment::from_ring(&too_big, &ctx),
        Err(VrfError::InvalidArgument)
    ));

    let slots: Vec<RingSlot> = (0u8..2).map(|i| RingSlot::Present(member(i).public())).collect();
    let ring = Ring::new(slots);
    assert!(matches!(
        RingProver::new(&ring, &ctx, 2),
        Err(VrfError::InvalidArgument)
    ));
}

#[test]
fn context_construction_and_padding() {
    assert!(ring_context(0).is_none());
    let ctx = ring_context(3).unwrap();
    assert_eq!(ctx.size(), 3);
    let pad1 = ctx.padding_point().to_bytes();
    let pad2 = RingContext::new(3).padding_point().to_bytes();
    assert_eq!(pad1.len(), 32);
    assert_eq!(pad1, pad2);
}

#[test]
fn contexts_of_one_size_are_interchangeable() {
    // parameters are a deterministic function of the size: artifacts made
    // under one context hold under another of the same size
    let ctx1 = RingContext::new(6);
    let ctx2 = RingContext::new(6);
    let ring = six_member_ring();

    let commitment1 = RingCommitment::from_ring(&ring, &ctx1).unwrap();
    let commitment2 = RingCommitment::from_ring(&ring, &ctx2).unwrap();
    assert_eq!(commitment1.to_bytes(), commitment2.to_bytes());

    let signer = member(1);
    let prover = RingProver::new(&ring, &ctx1, 1).unwrap();
    let sig = prover.sign(&signer, b"input", b"aux").unwrap().to_bytes();
    let verifier = RingVerifier::from_commitment(&commitment2, &ctx2);
    assert!(verifier.verify(&sig, b"input", b"aux").is_ok());
}
