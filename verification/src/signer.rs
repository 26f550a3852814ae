//! Keys and signatures.
//!
//! A transaction is signed with ECDSA over secp256k1. What is signed depends
//! on the kind of transaction: a native transfer is written as compact JSON
//! and hashed; every other transaction is signed over the node protocol's
//! own encoding, which is produced outside this library, so for those the
//! library prepares everything but the signature.

use crate::hexcodec::{decode, decode_hex, hex_char, is_hex_encoding};
use crate::transaction::{
    Address, Balance, Nonce, SignedTransaction, SignedTransactionModel,
    TransactionModel, TransactionType, UnsignedTransaction, UnsignedTransactionModel,
};
use vstd::prelude::*;

verus! {

/// Whether `SecretKey::from_slice` of secp256k1 accepts these bytes: 32 of
/// them, which as a number lie in the curve's scalar range.
pub uninterp spec fn secp256k1_secret_key_valid(secret: Seq<u8>) -> bool;

/// The compressed public key, 33 bytes, that secp256k1 derives from a valid
/// secret key.
pub uninterp spec fn secp256k1_public_key(secret: Seq<u8>) -> Seq<u8>;

/// The compact ECDSA signature, 64 bytes, that secp256k1 gives under a valid
/// secret key for the SHA-256 digest of `payload`, with the nonce of RFC 6979.
pub uninterp spec fn secp256k1_sign_sha256(secret: Seq<u8>, payload: Seq<u8>) -> Seq<u8>;

/// The JSON string literal, quotes and escapes included, that serde_json
/// writes for a text.
pub uninterp spec fn json_string(text: Seq<char>) -> Seq<char>;

/// `secp256k1::SecretKey::from_slice`, asked only whether it accepts the
/// bytes. It refuses anything but 32 bytes. Trusted.
#[verifier::external_body]
fn secret_key_is_valid(secret: &[u8]) -> (valid: bool)
    ensures
        valid == secp256k1_secret_key_valid(secret@),
        valid ==> secret@.len() == 32,
{
    secp256k1::SecretKey::from_slice(secret).is_ok()
}

/// `secp256k1::SecretKey::public_key` and `PublicKey::serialize`: the
/// compressed public key of a secret key, always 33 bytes. Trusted.
#[verifier::external_body]
fn public_key_of(secret: &[u8]) -> (key: Vec<u8>)
    requires
        secp256k1_secret_key_valid(secret@),
    ensures
        key@ == secp256k1_public_key(secret@),
        key@.len() == 33,
{
    let secret_key = secp256k1::SecretKey::from_slice(secret).expect("a valid secret key");
    secret_key.public_key(&secp256k1::Secp256k1::new()).serialize().to_vec()
}

/// `secp256k1::Message::from_hashed_data` with SHA-256, then
/// `SecretKey::sign_ecdsa` and `Signature::serialize_compact`: the signature
/// is a function of key and payload alone, and always 64 bytes. Trusted.
#[verifier::external_body]
fn sign_sha256_with(secret: &[u8], payload: &[u8]) -> (signature: Vec<u8>)
    requires
        secp256k1_secret_key_valid(secret@),
    ensures
        signature@ == secp256k1_sign_sha256(secret@, payload@),
        signature@.len() == 64,
{
    let secret_key = secp256k1::SecretKey::from_slice(secret).expect("a valid secret key");
    let message =
        secp256k1::Message::from_hashed_data::<secp256k1::hashes::sha256::Hash>(payload);
    secret_key.sign_ecdsa(message).serialize_compact().to_vec()
}

/// `serde_json::to_string` on a string slice: the text as a JSON string
/// literal. Trusted.
#[verifier::external_body]
fn json_string_literal(text: &str) -> (literal: String)
    ensures
        literal@ == json_string(text@),
{
    serde_json::to_string(text).unwrap_or_default()
}

/// A secret key that the curve accepts.
pub struct SigningKey {
    bytes: Vec<u8>,
}

impl View for SigningKey {
    type V = Seq<u8>;

    closed spec fn view(&self) -> Seq<u8> {
        self.bytes@
    }
}

/// Why no signing key or no request could be made.
#[derive(Clone, Copy, Debug, PartialEq, Eq, Structural)]
pub enum SubmitRequestError {
    /// The private key is no hex encoding.
    KeyNotHex,
    /// The private key's bytes are no valid secret key.
    KeyRejected,
    /// The target of a native transfer is not 20 bytes long.
    AddressLength,
}

impl SubmitRequestError {
    /// The kind of failure: a key that is no hex and an address of the wrong
    /// length are encoding failures, a rejected key is a signing failure.
    pub open spec fn kind_spec(self) -> crate::error::ErrorKind {
        match self {
            SubmitRequestError::KeyRejected => crate::error::ErrorKind::Signing,
            _ => crate::error::ErrorKind::Encoding,
        }
    }

    /// The kind of failure.
    pub fn kind(&self) -> (kind: crate::error::ErrorKind)
        ensures
            kind == self.kind_spec(),
    {
        match self {
            SubmitRequestError::KeyRejected => crate::error::ErrorKind::Signing,
            _ => crate::error::ErrorKind::Encoding,
        }
    }
}

/// The key that `private_key` holds as hex text, or why it holds none.
pub open spec fn key_of(private_key: Seq<char>) -> Result<Seq<u8>, SubmitRequestError> {
    if !is_hex_encoding(private_key) {
        Err(SubmitRequestError::KeyNotHex)
    } else if !secp256k1_secret_key_valid(decode_hex(private_key)) {
        Err(SubmitRequestError::KeyRejected)
    } else {
        Ok(decode_hex(private_key))
    }
}

impl SigningKey {
    #[verifier::type_invariant]
    closed spec fn valid(&self) -> bool {
        secp256k1_secret_key_valid(self.bytes@)
    }

    /// Takes the key from raw bytes, if the curve accepts them.
    pub fn from_bytes(bytes: Vec<u8>) -> (key: Option<SigningKey>)
        ensures
            key is Some == secp256k1_secret_key_valid(bytes@),
            key matches Some(k) ==> k@ == bytes@ && bytes@.len() == 32,
    {
        if secret_key_is_valid(bytes.as_slice()) {
            Some(SigningKey { bytes })
        } else {
            None
        }
    }

    /// Takes the key from hex text.
    pub fn from_hex(private_key: &str) -> (key: Result<SigningKey, SubmitRequestError>)
        ensures
            match key {
                Ok(k) => key_of(private_key@) == Ok::<Seq<u8>, SubmitRequestError>(k@),
                Err(e) => key_of(private_key@) == Err::<Seq<u8>, SubmitRequestError>(e),
            },
    {
        match decode(private_key) {
            Err(_) => Err(SubmitRequestError::KeyNotHex),
            Ok(bytes) => match SigningKey::from_bytes(bytes) {
                Some(key) => Ok(key),
                None => Err(SubmitRequestError::KeyRejected),
            },
        }
    }

    /// The verifying key: the compressed public key, 33 bytes.
    pub fn verifying_key(&self) -> (key: Vec<u8>)
        ensures
            key@ == secp256k1_public_key(self@),
            key@.len() == 33,
    {
        proof {
            use_type_invariant(self);
        }
        public_key_of(self.bytes.as_slice())
    }

    /// Signs the SHA-256 digest of `payload`. The signature depends on key
    /// and payload alone and is 64 bytes long.
    pub fn sign_sha256(&self, payload: &[u8]) -> (signature: Vec<u8>)
        ensures
            signature@ == secp256k1_sign_sha256(self@, payload@),
            signature@.len() == 64,
    {
        proof {
            use_type_invariant(self);
        }
        sign_sha256_with(self.bytes.as_slice(), payload)
    }
}

/// The digits of `n` in base ten, without leading zeros.
pub open spec fn decimal(n: nat) -> Seq<char>
    decreases n,
{
    if n < 10 {
        seq![hex_char(n as int)]
    } else {
        decimal(n / 10).push(hex_char((n % 10) as int))
    }
}

/// The bytes as decimal numbers with commas between them.
pub open spec fn byte_list(bytes: Seq<u8>) -> Seq<char>
    decreases bytes.len(),
{
    if bytes.len() == 0 {
        Seq::empty()
    } else if bytes.len() == 1 {
        decimal(bytes[0] as nat)
    } else {
        byte_list(bytes.drop_last()) + seq![','] + decimal(bytes.last() as nat)
    }
}

/// The compact JSON of a native transfer's payload, fields in the order
/// nonce, transaction type, fee limit.
pub open spec fn native_transfer_json(
    nonce: Nonce,
    address: Seq<u8>,
    amount: Seq<char>,
    fee_limit: Balance,
) -> Seq<char> {
    "{\"nonce\":"@ + decimal(nonce as nat) + ",\"transaction_type\":{\"NativeTokenTransfer\":[["@
        + byte_list(address) + "],"@ + json_string(amount) + "]},\"fee_limit\":"@ + decimal(
        fee_limit as nat,
    ) + "}"@
}

/// One decimal digit as text.
fn digit_text(digit: u8) -> (text: &'static str)
    requires
        digit < 10,
    ensures
        text@ == seq![hex_char(digit as int)],
{
    proof {
        reveal_strlit("0");
        reveal_strlit("1");
        reveal_strlit("2");
        reveal_strlit("3");
        reveal_strlit("4");
        reveal_strlit("5");
        reveal_strlit("6");
        reveal_strlit("7");
        reveal_strlit("8");
        reveal_strlit("9");
    }
    let text = match digit {
        0 => "0",
        1 => "1",
        2 => "2",
        3 => "3",
        4 => "4",
        5 => "5",
        6 => "6",
        7 => "7",
        8 => "8",
        _ => "9",
    };
    assert(text@ =~= seq![hex_char(digit as int)]);
    text
}

/// Appends `n` in base ten.
fn push_decimal(out: &mut String, n: u128)
    ensures
        final(out)@ == old(out)@ + decimal(n as nat),
    decreases n,
{
    if n >= 10 {
        push_decimal(out, n / 10);
    }
    out.append(digit_text((n % 10) as u8));
    assert(final(out)@ =~= old(out)@ + decimal(n as nat));
}

/// `n` in base ten.
pub fn decimal_text(n: u128) -> (text: String)
    ensures
        text@ == decimal(n as nat),
{
    let mut text = String::new();
    push_decimal(&mut text, n);
    assert(text@ =~= decimal(n as nat));
    text
}

/// Appends the bytes as decimal numbers with commas between them.
fn push_byte_list(out: &mut String, bytes: &[u8])
    ensures
        final(out)@ == old(out)@ + byte_list(bytes@),
{
    let ghost start = out@;
    let mut i: usize = 0;
    while i < bytes.len()
        invariant
            i <= bytes@.len(),
            out@ == start + byte_list(bytes@.take(i as int)),
        decreases bytes@.len() - i,
    {
        let ghost before = out@;
        if i > 0 {
            proof {
                reveal_strlit(",");
            }
            out.append(",");
        }
        push_decimal(out, bytes[i] as u128);
        proof {
            let done = bytes@.take(i as int);
            let next = bytes@.take(i + 1);
            assert(next.drop_last() =~= done);
            assert(next.last() == bytes@[i as int]);
            assert(out@ =~= start + byte_list(next));
        }
        i += 1;
    }
    assert(bytes@.take(i as int) =~= bytes@);
}

/// The payload of a native token transfer: the receiving address and the
/// amount in base ten.
#[derive(Debug, PartialEq)]
pub enum TransactionTypeNativeTX {
    NativeTokenTransfer(Address, String),
}

/// What is signed for a native token transfer.
#[derive(Debug)]
pub struct NativeTokenTransferPayload {
    pub nonce: Nonce,
    pub transaction_type: TransactionTypeNativeTX,
    pub fee_limit: Balance,
}

impl NativeTokenTransferPayload {
    /// The payload's JSON text.
    pub open spec fn json(&self) -> Seq<char> {
        match self.transaction_type {
            TransactionTypeNativeTX::NativeTokenTransfer(address, amount) => native_transfer_json(
                self.nonce,
                address@,
                amount@,
                self.fee_limit,
            ),
        }
    }

    /// Writes the payload as compact JSON, which is what gets signed.
    pub fn to_json(&self) -> (text: String)
        ensures
            text@ == self.json(),
    {
        let mut text = String::new();
        text.append("{\"nonce\":");
        push_decimal(&mut text, self.nonce);
        text.append(",\"transaction_type\":{\"NativeTokenTransfer\":[[");
        match &self.transaction_type {
            TransactionTypeNativeTX::NativeTokenTransfer(address, amount) => {
                push_byte_list(&mut text, address.as_slice());
                text.append("],");
                let literal = json_string_literal(amount.as_str());
                text.append(literal.as_str());
            },
        }
        text.append("]},\"fee_limit\":");
        push_decimal(&mut text, self.fee_limit);
        text.append("}");
        assert(text@ =~= self.json());
        text
    }
}

/// What `get_submit_txn_req` hands back: a request that is complete, or one
/// that still lacks the signature over its protocol encoding.
#[derive(Debug, PartialEq)]
pub enum SubmitTxnRequest {
    Signed(SignedTransaction),
    AwaitingProtocolSignature(UnsignedTransaction),
}

pub enum SubmitTxnRequestModel {
    Signed(SignedTransactionModel),
    AwaitingProtocolSignature(UnsignedTransactionModel),
}

impl View for SubmitTxnRequest {
    type V = SubmitTxnRequestModel;

    open spec fn view(&self) -> SubmitTxnRequestModel {
        match self {
            SubmitTxnRequest::Signed(signed) => SubmitTxnRequestModel::Signed(signed@),
            SubmitTxnRequest::AwaitingProtocolSignature(unsigned) => {
                SubmitTxnRequestModel::AwaitingProtocolSignature(unsigned@)
            },
        }
    }
}

/// The request for `txn` under the key in `private_key`.
///
/// The key is checked first. A native transfer to an address of 20 bytes is
/// signed over the UTF-8 bytes of its JSON payload. Every other transaction
/// is returned unsigned, with the verifying key in place.
pub open spec fn submit_request(
    txn: TransactionModel,
    private_key: Seq<char>,
    fee_limit: Balance,
    nonce: Nonce,
) -> Result<SubmitTxnRequestModel, SubmitRequestError> {
    match key_of(private_key) {
        Err(error) => Err(error),
        Ok(key) => match txn {
            TransactionModel::NativeTransfer { to_address, amount } => if to_address.len() != 20 {
                Err(SubmitRequestError::AddressLength)
            } else {
                Ok(
                    SubmitTxnRequestModel::Signed(
                        SignedTransactionModel {
                            nonce,
                            fee_limit,
                            signature: secp256k1_sign_sha256(
                                key,
                                vstd::utf8::encode_utf8(
                                    native_transfer_json(
                                        nonce,
                                        to_address,
                                        decimal(amount as nat),
                                        fee_limit,
                                    ),
                                ),
                            ),
                            verifying_key: secp256k1_public_key(key),
                            transaction_type: txn,
                        },
                    ),
                )
            },
            _ => Ok(
                SubmitTxnRequestModel::AwaitingProtocolSignature(
                    UnsignedTransactionModel {
                        nonce,
                        fee_limit,
                        verifying_key: secp256k1_public_key(key),
                        transaction_type: txn,
                    },
                ),
            ),
        },
    }
}

pub open spec fn submit_view(outcome: Result<SubmitTxnRequest, SubmitRequestError>) -> Result<
    SubmitTxnRequestModel,
    SubmitRequestError,
> {
    match outcome {
        Ok(request) => Ok(request@),
        Err(error) => Err(error),
    }
}

/// The first 20 bytes of `bytes` as an address.
fn address_of(bytes: &Vec<u8>) -> (address: Address)
    requires
        bytes@.len() == 20,
    ensures
        address@ == bytes@,
{
    let mut address: Address = [0u8; 20];
    let mut i: usize = 0;
    while i < 20
        invariant
            i <= 20,
            bytes@.len() == 20,
            forall|j: int| 0 <= j < i ==> address@[j] == bytes@[j],
        decreases 20 - i,
    {
        address[i] = bytes[i];
        i += 1;
    }
    assert(address@ =~= bytes@);
    address
}

/// Builds the request to submit `txn`: derives the verifying key from the
/// private key and, for a native transfer, signs.
pub fn get_submit_txn_req(
    txn: TransactionType,
    private_key: &str,
    fee_limit: Balance,
    nonce: Nonce,
) -> (request: Result<SubmitTxnRequest, SubmitRequestError>)
    ensures
        submit_view(request) == submit_request(txn@, private_key@, fee_limit, nonce),
{
    let secret_key = match SigningKey::from_hex(private_key) {
        Ok(key) => key,
        Err(error) => {
            return Err(error);
        },
    };
    let verifying_key = secret_key.verifying_key();
    match txn {
        TransactionType::NativeTransfer { to_address, amount } => {
            if to_address.len() != 20 {
                return Err(SubmitRequestError::AddressLength);
            }
            let obj = NativeTokenTransferPayload {
                nonce,
                transaction_type: TransactionTypeNativeTX::NativeTokenTransfer(
                    address_of(&to_address),
                    decimal_text(amount),
                ),
                fee_limit,
            };
            let json_str = obj.to_json();
            let signature = secret_key.sign_sha256(json_str.as_str().as_bytes());
            Ok(
                SubmitTxnRequest::Signed(
                    SignedTransaction {
                        nonce,
                        fee_limit,
                        signature,
                        verifying_key,
                        transaction_type: TransactionType::NativeTransfer { to_address, amount },
                    },
                ),
            )
        },
        other => Ok(
            SubmitTxnRequest::AwaitingProtocolSignature(
                UnsignedTransaction { nonce, fee_limit, verifying_key, transaction_type: other },
            ),
        ),
    }
}

/// Signing is deterministic: two requests built from the same transaction,
/// key, fee limit and nonce are equal, signature included.
pub proof fn lemma_signing_deterministic(
    txn: TransactionModel,
    private_key: Seq<char>,
    fee_limit: Balance,
    nonce: Nonce,
    first: Result<SubmitTxnRequestModel, SubmitRequestError>,
    second: Result<SubmitTxnRequestModel, SubmitRequestError>,
)
    requires
        first == submit_request(txn, private_key, fee_limit, nonce),
        second == submit_request(txn, private_key, fee_limit, nonce),
    ensures
        first == second,
        first matches Ok(SubmitTxnRequestModel::Signed(a)) ==> second matches Ok(
            SubmitTxnRequestModel::Signed(b),
        ) && a.signature == b.signature,
{
}

} // verus!
