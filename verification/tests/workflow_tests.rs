use base64::Engine;
use gor_keyless_backend::error::WalletError;
use gor_keyless_backend::identity::Identity;
use gor_keyless_backend::registry::{get_counters, update_counters, CounterData, Registry};
use gor_keyless_backend::signer::SchnorrAlgorithm;
use gor_keyless_backend::transfer::SendTransactionRequest;
use gor_keyless_backend::workflow::{
    address_request, get_or_create_address, sign_raw, sign_raw_request, transfer_begin,
    transfer_on_public_key, transfer_on_signature,
};

const ZERO_ADDRESS: &str = "11111111111111111111111111111111";

fn alice() -> Identity {
    Identity::from_bytes(vec![0, 0, 0, 0, 0, 0, 0, 7, 1, 1])
}

#[test]
fn the_address_request_is_for_the_caller() {
    let request = address_request(&alice()).unwrap();
    assert_eq!(request.derivation_path, vec![vec![0u8, 0, 0, 0, 0, 0, 0, 7, 1, 1]]);
    assert_eq!(request.key_id.algorithm, SchnorrAlgorithm::Ed25519);
    assert_eq!(request.key_id.name, "dfx_test_key");
    assert_eq!(request.canister_id, None);
}

#[test]
fn the_anonymous_caller_gets_no_address_request() {
    assert_eq!(address_request(&Identity::anonymous()), Err(WalletError::UnauthorizedCaller));
}

#[test]
fn the_first_derivation_registers_the_address() {
    let mut registry = Registry::new();
    let address = get_or_create_address(&mut registry, &alice(), Ok(vec![0u8; 32]));
    assert_eq!(address, Ok(ZERO_ADDRESS.to_string()));
    assert!(registry.account_exists(&ZERO_ADDRESS.to_string()));
    assert_eq!(get_counters(&registry), CounterData { accounts: 1, transactions: 0 });
}

#[test]
fn repeated_derivation_returns_the_same_address_and_counts_once() {
    let mut registry = Registry::new();
    let key: Vec<u8> = (1u8..=32).collect();
    let first = get_or_create_address(&mut registry, &alice(), Ok(key.clone())).unwrap();
    let second = get_or_create_address(&mut registry, &alice(), Ok(key.clone())).unwrap();
    let third = get_or_create_address(&mut registry, &alice(), Ok(key)).unwrap();
    assert_eq!(first, second);
    assert_eq!(second, third);
    assert_eq!(get_counters(&registry), CounterData { accounts: 1, transactions: 0 });
}

#[test]
fn distinct_addresses_are_each_counted() {
    let mut registry = Registry::new();
    let bob = Identity::from_bytes(vec![9, 9, 9]);
    let one = get_or_create_address(&mut registry, &alice(), Ok(vec![1u8; 32])).unwrap();
    let two = get_or_create_address(&mut registry, &bob, Ok(vec![2u8; 32])).unwrap();
    let again = get_or_create_address(&mut registry, &alice(), Ok(vec![1u8; 32])).unwrap();
    assert_ne!(one, two);
    assert_eq!(one, again);
    assert_eq!(get_counters(&registry).accounts, 2);
}

#[test]
fn the_anonymous_caller_gets_no_address_and_changes_nothing() {
    let mut registry = Registry::new();
    update_counters(&mut registry, CounterData { accounts: 5, transactions: 6 });
    let address = get_or_create_address(&mut registry, &Identity::anonymous(), Ok(vec![0u8; 32]));
    assert_eq!(address, Err(WalletError::UnauthorizedCaller));
    assert!(!registry.account_exists(&ZERO_ADDRESS.to_string()));
    assert_eq!(get_counters(&registry), CounterData { accounts: 5, transactions: 6 });
}

#[test]
fn a_key_of_the_wrong_length_registers_nothing() {
    let mut registry = Registry::new();
    for length in [0usize, 31, 33] {
        let address = get_or_create_address(&mut registry, &alice(), Ok(vec![0u8; length]));
        assert_eq!(address, Err(WalletError::InvalidKeyLength));
    }
    assert_eq!(get_counters(&registry), CounterData { accounts: 0, transactions: 0 });
}

#[test]
fn a_failure_of_the_signer_is_passed_on() {
    let mut registry = Registry::new();
    let address = get_or_create_address(&mut registry, &alice(), Err("no such key".to_string()));
    assert_eq!(address, Err(WalletError::UpstreamSigningError("no such key".to_string())));
    assert_eq!(get_counters(&registry), CounterData { accounts: 0, transactions: 0 });
}

#[test]
fn a_full_counter_refuses_a_new_address() {
    let mut registry = Registry::new();
    update_counters(&mut registry, CounterData { accounts: u64::MAX, transactions: 0 });
    let address = get_or_create_address(&mut registry, &alice(), Ok(vec![0u8; 32]));
    assert_eq!(address, Err(WalletError::StorageFault));
    assert!(!registry.account_exists(&ZERO_ADDRESS.to_string()));
}

#[test]
fn a_base64_message_is_decoded_for_signing() {
    let request = sign_raw_request(&alice(), "aGVsbG8gd29ybGQ=").unwrap();
    assert_eq!(request.message, b"hello world".to_vec());
    assert_eq!(request.derivation_path, vec![vec![0u8, 0, 0, 0, 0, 0, 0, 7, 1, 1]]);
    assert_eq!(request.key_id.name, "dfx_test_key");
    assert_eq!(request.cycles, 26_153_846_153);
    let empty = sign_raw_request(&alice(), "").unwrap();
    assert_eq!(empty.message, Vec::<u8>::new());
}

#[test]
fn text_that_is_not_base64_is_refused() {
    assert_eq!(sign_raw_request(&alice(), "not base64!"), Err(WalletError::InvalidEncoding));
    assert_eq!(sign_raw_request(&alice(), "aGVsbG8"), Err(WalletError::InvalidEncoding));
    assert_eq!(sign_raw_request(&alice(), "aGVsbG8=="), Err(WalletError::InvalidEncoding));
}

#[test]
fn the_anonymous_caller_signs_nothing() {
    assert_eq!(
        sign_raw_request(&Identity::anonymous(), "aGVsbG8="),
        Err(WalletError::UnauthorizedCaller)
    );
    assert_eq!(
        sign_raw_request(&Identity::anonymous(), "not base64!"),
        Err(WalletError::UnauthorizedCaller)
    );
}

#[test]
fn a_signature_comes_back_in_hexadecimal() {
    assert_eq!(sign_raw(Ok(vec![0xca, 0xfe, 0x01])), Ok("cafe01".to_string()));
    assert_eq!(
        sign_raw(Err("rejected".to_string())),
        Err(WalletError::UpstreamSigningError("rejected".to_string()))
    );
}

#[test]
fn a_transfer_is_built_and_signed() {
    let mut registry = Registry::new();
    let request = SendTransactionRequest { to_address: "Recipient".to_string(), amount_lamports: 1500 };
    let (pending, key_request) = transfer_begin(&alice(), request).unwrap();
    assert_eq!(key_request.derivation_path, vec![vec![0u8, 0, 0, 0, 0, 0, 0, 7, 1, 1]]);
    assert_eq!(pending.request.to_address, "Recipient");
    assert_eq!(pending.request.amount_lamports, 1500);

    let (transfer, sign_request) = transfer_on_public_key(
        &mut registry,
        &alice(),
        pending,
        Ok(vec![0u8; 32]),
        1_700_000_000_123_456_789,
    )
    .unwrap();
    let message = "{\"from\":\"11111111111111111111111111111111\",\"to\":\"Recipient\",\
                   \"amount\":1500,\"timestamp\":1700000000123456789}";
    assert_eq!(sign_request.message, message.as_bytes().to_vec());
    assert_eq!(sign_request.derivation_path, vec![vec![0u8, 0, 0, 0, 0, 0, 0, 7, 1, 1]]);
    assert_eq!(
        transfer.transaction_base64,
        base64::engine::general_purpose::STANDARD.encode(message.as_bytes())
    );
    assert_eq!(transfer.from_address, ZERO_ADDRESS);
    assert_eq!(transfer.to_address, "Recipient");
    assert_eq!(transfer.amount_lamports, 1500);
    assert!(registry.account_exists(&ZERO_ADDRESS.to_string()));
    assert_eq!(get_counters(&registry), CounterData { accounts: 1, transactions: 0 });

    let signed = transfer_on_signature(transfer, Ok(vec![0xab; 64])).unwrap();
    assert_eq!(signed.signature_hex, "ab".repeat(64));
    assert_eq!(signed.from_address, ZERO_ADDRESS);
    assert_eq!(signed.to_address, "Recipient");
    assert_eq!(signed.amount_lamports, 1500);
    assert_eq!(
        signed.transaction_base64,
        base64::engine::general_purpose::STANDARD.encode(message.as_bytes())
    );
}

#[test]
fn a_known_message_has_its_known_base64() {
    let mut registry = Registry::new();
    let request = SendTransactionRequest { to_address: "b".to_string(), amount_lamports: 0 };
    let (pending, _) = transfer_begin(&alice(), request).unwrap();
    let (transfer, _) =
        transfer_on_public_key(&mut registry, &alice(), pending, Ok(vec![0u8; 32]), 0).unwrap();
    assert_eq!(
        transfer.transaction_base64,
        "eyJmcm9tIjoiMTExMTExMTExMTExMTExMTExMTExMTExMTExMTExMTEiLCJ0byI6ImIiLCJhbW91bnQiOjAsInRp\
         bWVzdGFtcCI6MH0="
    );
}

#[test]
fn the_anonymous_caller_begins_no_transfer() {
    let request = SendTransactionRequest { to_address: "x".to_string(), amount_lamports: 1 };
    assert_eq!(
        transfer_begin(&Identity::anonymous(), request),
        Err(WalletError::UnauthorizedCaller)
    );
}

#[test]
fn a_transfer_stops_where_the_signer_fails() {
    let mut registry = Registry::new();
    let request = SendTransactionRequest { to_address: "x".to_string(), amount_lamports: 1 };
    let (pending, _) = transfer_begin(&alice(), request).unwrap();
    let drafted =
        transfer_on_public_key(&mut registry, &alice(), pending, Err("down".to_string()), 5);
    assert_eq!(drafted, Err(WalletError::UpstreamSigningError("down".to_string())));
    assert_eq!(get_counters(&registry), CounterData { accounts: 0, transactions: 0 });

    let request = SendTransactionRequest { to_address: "x".to_string(), amount_lamports: 1 };
    let (pending, _) = transfer_begin(&alice(), request).unwrap();
    let drafted = transfer_on_public_key(&mut registry, &alice(), pending, Ok(vec![0u8; 31]), 5);
    assert_eq!(drafted, Err(WalletError::InvalidKeyLength));

    let request = SendTransactionRequest { to_address: "x".to_string(), amount_lamports: 1 };
    let (pending, _) = transfer_begin(&alice(), request).unwrap();
    let (transfer, _) =
        transfer_on_public_key(&mut registry, &alice(), pending, Ok(vec![0u8; 32]), 5).unwrap();
    let signed = transfer_on_signature(transfer, Err("timeout".to_string()));
    assert_eq!(signed, Err(WalletError::UpstreamSigningError("timeout".to_string())));
}

#[test]
fn signing_does_not_count_transactions() {
    let mut registry = Registry::new();
    let request = SendTransactionRequest { to_address: "x".to_string(), amount_lamports: 1 };
    let (pending, _) = transfer_begin(&alice(), request).unwrap();
    let (transfer, _) =
        transfer_on_public_key(&mut registry, &alice(), pending, Ok(vec![3u8; 32]), 5).unwrap();
    let _ = transfer_on_signature(transfer, Ok(vec![1, 2, 3])).unwrap();
    assert_eq!(get_counters(&registry).transactions, 0);
}
