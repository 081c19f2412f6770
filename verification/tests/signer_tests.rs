use gor_keyless_backend::error::WalletError;
use gor_keyless_backend::identity::Identity;
use gor_keyless_backend::signer::{
    address_from_public_key, public_key_request, signature_request, signature_text,
    SchnorrAlgorithm, PUBLIC_KEY_LENGTH, SIGN_CYCLES,
};

#[test]
fn the_request_names_one_segment_the_identity() {
    let identity = Identity::from_bytes(vec![10, 20, 30]);
    let request = public_key_request(&identity);
    assert_eq!(request.canister_id, None);
    assert_eq!(request.derivation_path, vec![vec![10u8, 20, 30]]);
    assert_eq!(request.key_id.algorithm, SchnorrAlgorithm::Ed25519);
    assert_eq!(request.key_id.name, "dfx_test_key");
}

#[test]
fn the_same_identity_gives_the_same_request() {
    let first = public_key_request(&Identity::from_bytes(vec![1, 2]));
    let second = public_key_request(&Identity::from_bytes(vec![1, 2]));
    assert_eq!(first, second);
    let other = public_key_request(&Identity::from_bytes(vec![1, 3]));
    assert_ne!(first.derivation_path, other.derivation_path);
}

#[test]
fn the_signature_request_carries_message_and_path() {
    let identity = Identity::from_bytes(vec![7; 29]);
    let request = signature_request(&identity, vec![0xde, 0xad]);
    assert_eq!(request.message, vec![0xde, 0xad]);
    assert_eq!(request.derivation_path, vec![vec![7u8; 29]]);
    assert_eq!(request.key_id.algorithm, SchnorrAlgorithm::Ed25519);
    assert_eq!(request.key_id.name, "dfx_test_key");
    assert_eq!(request.cycles, 26_153_846_153);
    assert_eq!(SIGN_CYCLES, 26_153_846_153);
}

#[test]
fn the_all_zero_key_has_the_all_ones_address() {
    assert_eq!(PUBLIC_KEY_LENGTH, 32);
    let address = address_from_public_key(&vec![0u8; 32]);
    assert_eq!(address, Ok("11111111111111111111111111111111".to_string()));
}

#[test]
fn encoding_a_key_is_reproducible() {
    let key: Vec<u8> = (1u8..=32).collect();
    let first = address_from_public_key(&key).unwrap();
    let second = address_from_public_key(&key.clone()).unwrap();
    assert_eq!(first, second);
    assert_ne!(first, address_from_public_key(&vec![0u8; 32]).unwrap());
}

#[test]
fn a_known_key_has_its_known_address() {
    let key: Vec<u8> = vec![
        6, 221, 246, 225, 215, 101, 161, 147, 217, 203, 225, 70, 206, 235, 121, 172, 28, 180,
        133, 237, 95, 91, 55, 145, 58, 140, 245, 133, 126, 255, 0, 169,
    ];
    assert_eq!(
        address_from_public_key(&key),
        Ok("TokenkegQfeZyiNwAJbNbGKPFXCWuBvf9Ss623VQ5DA".to_string())
    );
}

#[test]
fn a_key_of_another_length_has_no_address() {
    assert_eq!(address_from_public_key(&vec![0u8; 31]), Err(WalletError::InvalidKeyLength));
    assert_eq!(address_from_public_key(&vec![0u8; 33]), Err(WalletError::InvalidKeyLength));
    assert_eq!(address_from_public_key(&Vec::new()), Err(WalletError::InvalidKeyLength));
    assert_eq!(address_from_public_key(&vec![1u8; 64]), Err(WalletError::InvalidKeyLength));
}

#[test]
fn signatures_are_lowercase_hexadecimal() {
    assert_eq!(signature_text(&vec![0x00, 0x0f, 0xab, 0xff]), "000fabff");
    assert_eq!(signature_text(&Vec::new()), "");
    assert_eq!(signature_text(&vec![0x10]), "10");
    let signature: Vec<u8> = (0u8..64).collect();
    let text = signature_text(&signature);
    assert_eq!(text.len(), 128);
    assert!(text.starts_with("000102030405060708090a0b0c0d0e0f10"));
}
