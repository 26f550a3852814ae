use l1x_forge::error::ErrorKind;
use l1x_forge::signer::{
    decimal_text, get_submit_txn_req, NativeTokenTransferPayload, SigningKey, SubmitRequestError,
    SubmitTxnRequest, TransactionTypeNativeTX,
};
use l1x_forge::transaction::{
    signing_strategy, AccessType, ContractType, SigningStrategy, TransactionType,
    UnsignedTransaction,
};

const KEY_ONE: &str = "0000000000000000000000000000000000000000000000000000000000000001";
const KEY_ONE_PUBLIC: &str = "0279be667ef9dcbbac55a06295ce870b07029bfcdb2dce28d959f2815b16f81798";
const CURVE_ORDER: &str = "fffffffffffffffffffffffffffffffebaaedce6af48a03bbfd25e8cd0364141";

fn transfer(amount: u128) -> TransactionType {
    TransactionType::NativeTransfer { to_address: (1..=20u8).collect(), amount }
}

fn verify(signature: &[u8], payload: &[u8], public_key: &[u8]) -> bool {
    let secp = secp256k1::Secp256k1::verification_only();
    let message =
        secp256k1::Message::from_hashed_data::<secp256k1::hashes::sha256::Hash>(payload);
    let signature = secp256k1::ecdsa::Signature::from_compact(signature).unwrap();
    let public_key = secp256k1::PublicKey::from_slice(public_key).unwrap();
    secp.verify_ecdsa(&message, &signature, &public_key).is_ok()
}

#[test]
fn signing_key_from_hex_takes_a_valid_key() {
    let key = SigningKey::from_hex(KEY_ONE).unwrap();
    assert_eq!(hex::encode(key.verifying_key()), KEY_ONE_PUBLIC);
}

#[test]
fn signing_key_from_hex_refuses_what_is_no_hex() {
    assert_eq!(SigningKey::from_hex("xyz").err(), Some(SubmitRequestError::KeyNotHex));
    assert_eq!(SigningKey::from_hex("abc").err(), Some(SubmitRequestError::KeyNotHex));
    let prefixed = format!("0x{}", KEY_ONE);
    assert_eq!(SigningKey::from_hex(&prefixed).err(), Some(SubmitRequestError::KeyNotHex));
}

#[test]
fn signing_key_from_hex_refuses_bytes_that_are_no_key() {
    let zero = "00".repeat(32);
    assert_eq!(SigningKey::from_hex(&zero).err(), Some(SubmitRequestError::KeyRejected));
    assert_eq!(SigningKey::from_hex(CURVE_ORDER).err(), Some(SubmitRequestError::KeyRejected));
    assert_eq!(SigningKey::from_hex("01").err(), Some(SubmitRequestError::KeyRejected));
    assert_eq!(SigningKey::from_hex("").err(), Some(SubmitRequestError::KeyRejected));
    let long = "01".repeat(33);
    assert_eq!(SigningKey::from_hex(&long).err(), Some(SubmitRequestError::KeyRejected));
}

#[test]
fn signing_key_from_bytes() {
    let mut bytes = vec![0u8; 32];
    assert!(SigningKey::from_bytes(bytes.clone()).is_none());
    bytes[31] = 1;
    let key = SigningKey::from_bytes(bytes).unwrap();
    assert_eq!(hex::encode(key.verifying_key()), KEY_ONE_PUBLIC);
    assert!(SigningKey::from_bytes(vec![1u8; 31]).is_none());
}

#[test]
fn sign_sha256_gives_a_signature_that_verifies() {
    let key = SigningKey::from_hex(KEY_ONE).unwrap();
    let signature = key.sign_sha256(b"hello");
    assert_eq!(signature.len(), 64);
    assert!(verify(&signature, b"hello", &key.verifying_key()));
    assert!(!verify(&signature, b"hullo", &key.verifying_key()));
    assert_eq!(key.sign_sha256(b"hello"), signature);
    assert_ne!(key.sign_sha256(b"hullo"), signature);
}

#[test]
fn request_error_kinds() {
    assert_eq!(SubmitRequestError::KeyNotHex.kind(), ErrorKind::Encoding);
    assert_eq!(SubmitRequestError::KeyRejected.kind(), ErrorKind::Signing);
    assert_eq!(SubmitRequestError::AddressLength.kind(), ErrorKind::Encoding);
    assert!(ErrorKind::Confirmation.is_soft());
    assert!(!ErrorKind::Rpc.is_soft());
    assert!(!ErrorKind::RegistryInvariant.is_soft());
}

#[test]
fn decimal_text_values() {
    assert_eq!(decimal_text(0), "0");
    assert_eq!(decimal_text(7), "7");
    assert_eq!(decimal_text(9), "9");
    assert_eq!(decimal_text(10), "10");
    assert_eq!(decimal_text(1000), "1000");
    assert_eq!(decimal_text(90210), "90210");
    assert_eq!(decimal_text(u128::MAX), "340282366920938463463374607431768211455");
}

#[test]
fn native_transfer_payload_as_json() {
    let mut address = [0u8; 20];
    for (i, byte) in address.iter_mut().enumerate() {
        *byte = (i + 1) as u8;
    }
    let payload = NativeTokenTransferPayload {
        nonce: 7,
        transaction_type: TransactionTypeNativeTX::NativeTokenTransfer(
            address,
            "1000".to_string(),
        ),
        fee_limit: 3,
    };
    assert_eq!(
        payload.to_json(),
        "{\"nonce\":7,\"transaction_type\":{\"NativeTokenTransfer\":[[1,2,3,4,5,6,7,8,9,10,11,12,\
         13,14,15,16,17,18,19,20],\"1000\"]},\"fee_limit\":3}"
    );
}

#[test]
fn native_transfer_payload_with_large_numbers_and_bytes() {
    let payload = NativeTokenTransferPayload {
        nonce: u128::MAX,
        transaction_type: TransactionTypeNativeTX::NativeTokenTransfer([255u8; 20], "0".to_string()),
        fee_limit: 0,
    };
    let bytes = vec!["255"; 20].join(",");
    assert_eq!(
        payload.to_json(),
        format!(
            "{{\"nonce\":340282366920938463463374607431768211455,\"transaction_type\":\
             {{\"NativeTokenTransfer\":[[{}],\"0\"]}},\"fee_limit\":0}}",
            bytes
        )
    );
}

#[test]
fn native_transfer_payload_escapes_the_amount() {
    let payload = NativeTokenTransferPayload {
        nonce: 1,
        transaction_type: TransactionTypeNativeTX::NativeTokenTransfer(
            [0u8; 20],
            "1\"2\\3\n".to_string(),
        ),
        fee_limit: 2,
    };
    let json = payload.to_json();
    assert!(json.contains("],\"1\\\"2\\\\3\\n\"]}"), "{}", json);
    let value: serde_json::Value = serde_json::from_str(&json).unwrap();
    assert_eq!(
        value["transaction_type"]["NativeTokenTransfer"][1].as_str(),
        Some("1\"2\\3\n")
    );
    assert_eq!(value["nonce"].as_u64(), Some(1));
    assert_eq!(value["fee_limit"].as_u64(), Some(2));
}

#[test]
fn native_transfer_is_signed_over_its_json() {
    let request = get_submit_txn_req(transfer(1000), KEY_ONE, 3, 7).unwrap();
    let signed = match request {
        SubmitTxnRequest::Signed(signed) => signed,
        other => panic!("not signed: {:?}", other),
    };
    assert_eq!(signed.nonce, 7);
    assert_eq!(signed.fee_limit, 3);
    assert_eq!(hex::encode(&signed.verifying_key), KEY_ONE_PUBLIC);
    assert_eq!(signed.transaction_type, transfer(1000));
    assert_eq!(signed.signature.len(), 64);
    let json = "{\"nonce\":7,\"transaction_type\":{\"NativeTokenTransfer\":[[1,2,3,4,5,6,7,8,9,10,\
                11,12,13,14,15,16,17,18,19,20],\"1000\"]},\"fee_limit\":3}";
    assert!(verify(&signed.signature, json.as_bytes(), &signed.verifying_key));
}

#[test]
fn signing_is_deterministic() {
    let first = get_submit_txn_req(transfer(1000), KEY_ONE, 3, 7).unwrap();
    let second = get_submit_txn_req(transfer(1000), KEY_ONE, 3, 7).unwrap();
    assert_eq!(first, second);
}

#[test]
fn the_signature_depends_on_nonce_fee_and_payload() {
    let signature = |request: SubmitTxnRequest| match request {
        SubmitTxnRequest::Signed(signed) => signed.signature,
        other => panic!("not signed: {:?}", other),
    };
    let base = signature(get_submit_txn_req(transfer(1000), KEY_ONE, 3, 7).unwrap());
    assert_ne!(base, signature(get_submit_txn_req(transfer(1000), KEY_ONE, 3, 8).unwrap()));
    assert_ne!(base, signature(get_submit_txn_req(transfer(1000), KEY_ONE, 4, 7).unwrap()));
    assert_ne!(base, signature(get_submit_txn_req(transfer(1001), KEY_ONE, 3, 7).unwrap()));
    let other_key = "0000000000000000000000000000000000000000000000000000000000000002";
    assert_ne!(base, signature(get_submit_txn_req(transfer(1000), other_key, 3, 7).unwrap()));
}

#[test]
fn other_transactions_await_the_protocol_signature() {
    let call = TransactionType::FunctionCall {
        contract_address: vec![0xaa; 20],
        function_selector: vec![],
        arguments: vec![1, 2, 3],
    };
    let request = get_submit_txn_req(call.duplicate(), KEY_ONE, 100, 12).unwrap();
    assert_eq!(
        request,
        SubmitTxnRequest::AwaitingProtocolSignature(UnsignedTransaction {
            nonce: 12,
            fee_limit: 100,
            verifying_key: hex::decode(KEY_ONE_PUBLIC).unwrap(),
            transaction_type: call,
        })
    );
}

#[test]
fn unsigned_transaction_takes_the_signature() {
    let unsigned = UnsignedTransaction {
        nonce: 12,
        fee_limit: 100,
        verifying_key: vec![2; 33],
        transaction_type: TransactionType::Init {
            deployed_address: vec![1; 20],
            init_args: vec![0x7b, 0x7d],
        },
    };
    let copy = unsigned.duplicate();
    assert_eq!(copy, unsigned);
    let signed = unsigned.sign_with(vec![9; 64]);
    assert_eq!(signed.nonce, 12);
    assert_eq!(signed.fee_limit, 100);
    assert_eq!(signed.signature, vec![9; 64]);
    assert_eq!(signed.verifying_key, vec![2; 33]);
    assert_eq!(signed.transaction_type, copy.transaction_type);
}

#[test]
fn request_refuses_a_bad_key_before_anything_else() {
    let short = TransactionType::NativeTransfer { to_address: vec![1; 19], amount: 1 };
    assert_eq!(
        get_submit_txn_req(short.duplicate(), "nothex", 1, 1),
        Err(SubmitRequestError::KeyNotHex)
    );
    let zero = "00".repeat(32);
    assert_eq!(
        get_submit_txn_req(short.duplicate(), &zero, 1, 1),
        Err(SubmitRequestError::KeyRejected)
    );
    assert_eq!(get_submit_txn_req(short, KEY_ONE, 1, 1), Err(SubmitRequestError::AddressLength));
    let long = TransactionType::NativeTransfer { to_address: vec![1; 21], amount: 1 };
    assert_eq!(get_submit_txn_req(long, KEY_ONE, 1, 1), Err(SubmitRequestError::AddressLength));
}

#[test]
fn strategy_by_kind_of_transaction() {
    assert_eq!(signing_strategy(&transfer(1)), SigningStrategy::JsonHash);
    let deployment = TransactionType::Deployment {
        access_type: AccessType::Public,
        contract_type: ContractType::Evm,
        code_bytes: vec![1],
    };
    assert_eq!(signing_strategy(&deployment), SigningStrategy::ProtocolEncoding);
    let init = TransactionType::Init { deployed_address: vec![], init_args: vec![] };
    assert_eq!(signing_strategy(&init), SigningStrategy::ProtocolEncoding);
    let call = TransactionType::FunctionCall {
        contract_address: vec![],
        function_selector: vec![],
        arguments: vec![],
    };
    assert_eq!(signing_strategy(&call), SigningStrategy::ProtocolEncoding);
    let read = TransactionType::ReadOnlyCall {
        contract_address: vec![],
        function_selector: vec![],
        arguments: vec![],
    };
    assert_eq!(signing_strategy(&read), SigningStrategy::ProtocolEncoding);
}
