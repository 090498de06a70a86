use bandersnatch_vrfs::VrfError;
use bandersnatch_vrfs::ietf::get_ietf_signature_output;
use bandersnatch_vrfs::keys::{Public, Secret};
use bandersnatch_vrfs::vrf::VrfInput;

#[test]
fn public_key_roundtrip() {
    for seed in [vec![0u8; 32], vec![7u8; 32], b"some seed".to_vec(), vec![]] {
        let secret = Secret::from_seed(&seed);
        let public = secret.public();
        let bytes = public.to_bytes();
        assert_eq!(bytes.len(), 32);
        let decoded = Public::from_bytes(&bytes).expect("a serialized key must decode");
        assert_eq!(decoded.to_bytes(), bytes);
    }
}

#[test]
fn public_keys_differ_between_seeds() {
    let pk0 = Secret::from_seed(&[0u8; 32]).public().to_bytes();
    let pk1 = Secret::from_seed(&[1u8; 32]).public().to_bytes();
    assert_ne!(pk0, pk1);
    // the encoding is a curve point, not the seed handed back
    assert_ne!(pk0, vec![0u8; 32]);
}

#[test]
fn public_from_bytes_rejects_bad_input() {
    assert!(matches!(Public::from_bytes(&[0u8; 31]), Err(VrfError::MalformedEncoding)));
    assert!(matches!(Public::from_bytes(&[0u8; 33]), Err(VrfError::MalformedEncoding)));
    // 32 bytes that are no canonical point encoding
    assert!(matches!(Public::from_bytes(&[0xffu8; 32]), Err(VrfError::MalformedEncoding)));
}

#[test]
fn output_is_deterministic() {
    let secret = Secret::from_seed(&[0u8; 32]);
    let input1 = VrfInput::derive(b"fixed input data").unwrap();
    let input2 = VrfInput::derive(b"fixed input data").unwrap();
    let out1 = secret.output(&input1);
    let out2 = secret.output(&input2);
    assert_eq!(out1.hash(), out2.hash());
    assert_eq!(out1.score(), out2.score());
    assert_eq!(out1.score().len(), 32);
    assert_eq!(out1.score(), out1.hash()[..32].to_vec());
    // a real digest, not a constant or an echo of the input
    assert_ne!(out1.hash(), vec![0u8; 64]);
}

#[test]
fn ietf_sign_and_verify() {
    let secret = Secret::from_seed(&[0u8; 32]);
    let public = secret.public();
    let data = b"sample input";
    let aux = b"aux data";
    let sig = secret.prove_ietf(data, aux).unwrap();
    let bytes = sig.to_bytes();
    assert_eq!(bytes.len(), 96);
    let score = public.verify_ietf(&bytes, data, aux).unwrap();
    assert_eq!(score.len(), 32);
    // the score is the truncated output hash
    let input = VrfInput::derive(data).unwrap();
    assert_eq!(score, secret.output(&input).score());
}

#[test]
fn ietf_signature_is_deterministic() {
    let secret = Secret::from_seed(&[0u8; 32]);
    let sig1 = secret.prove_ietf(b"input", b"aux").unwrap();
    let sig2 = secret.prove_ietf(b"input", b"aux").unwrap();
    assert_eq!(sig1.to_bytes(), sig2.to_bytes());
}

#[test]
fn ietf_verify_rejects_wrong_inputs() {
    let secret = Secret::from_seed(&[1u8; 32]);
    let public = secret.public();
    let sig = secret.prove_ietf(b"message", b"aux").unwrap().to_bytes();

    // wrong message
    assert_eq!(
        public.verify_ietf(&sig, b"other message", b"aux").unwrap_err(),
        VrfError::CryptoVerificationFailure
    );
    // wrong aux
    assert_eq!(
        public.verify_ietf(&sig, b"message", b"other aux").unwrap_err(),
        VrfError::CryptoVerificationFailure
    );
    // wrong key
    let other = Secret::from_seed(&[2u8; 32]).public();
    assert_eq!(
        other.verify_ietf(&sig, b"message", b"aux").unwrap_err(),
        VrfError::CryptoVerificationFailure
    );
}

#[test]
fn ietf_verify_rejects_malformed_bytes() {
    let public = Secret::from_seed(&[1u8; 32]).public();
    // wrong lengths
    for len in [0usize, 32, 95, 97, 784] {
        let bytes = vec![0u8; len];
        assert_eq!(
            public.verify_ietf(&bytes, b"message", b"aux").unwrap_err(),
            VrfError::MalformedEncoding
        );
    }
    // right length, invalid point encoding
    let bytes = vec![0xffu8; 96];
    assert_eq!(
        public.verify_ietf(&bytes, b"message", b"aux").unwrap_err(),
        VrfError::MalformedEncoding
    );
}

#[test]
fn ietf_signature_output_extraction() {
    let secret = Secret::from_seed(&[3u8; 32]);
    let public = secret.public();
    let sig = secret.prove_ietf(b"ticket", b"").unwrap().to_bytes();
    let out = get_ietf_signature_output(&sig).unwrap();
    assert_eq!(out, public.verify_ietf(&sig, b"ticket", b"").unwrap());
    assert_eq!(get_ietf_signature_output(&[0u8; 95]).unwrap_err(), VrfError::MalformedEncoding);
    assert_eq!(
        get_ietf_signature_output(&[0xffu8; 96]).unwrap_err(),
        VrfError::MalformedEncoding
    );
}
