//! The credentials of a node: a secp256k1 key pair as hex text, and the
//! peer id that libp2p derives from it.

use crate::hexcodec::{decode, decode_hex, encode, encode_hex, is_hex_encoding};
use vstd::prelude::*;

verus! {

/// Whether libp2p takes these bytes as a secp256k1 secret key.
pub uninterp spec fn libp2p_secret_key_valid(secret: Seq<u8>) -> bool;

/// The compressed public key, 33 bytes, of a secret key that libp2p takes.
pub uninterp spec fn libp2p_public_key(secret: Seq<u8>) -> Seq<u8>;

/// The peer id, in base 58, of the key pair of a secret key that libp2p
/// takes.
pub uninterp spec fn libp2p_peer_id(secret: Seq<u8>) -> Seq<char>;

/// `libp2p::identity::secp256k1::SecretKey::try_from_bytes`, asked only
/// whether it accepts the bytes. It works on a copy, which it clears.
/// Trusted.
#[verifier::external_body]
fn secret_is_valid(secret: &[u8]) -> (valid: bool)
    ensures
        valid == libp2p_secret_key_valid(secret@),
{
    libp2p::identity::secp256k1::SecretKey::try_from_bytes(secret.to_vec()).is_ok()
}

/// `libp2p::identity::secp256k1::SecretKey::generate`, then `to_bytes`: a
/// fresh random secret key, 32 bytes, which libp2p takes. Two calls differ.
/// Trusted.
#[verifier::external_body]
fn generate_secret() -> (secret: Vec<u8>)
    ensures
        secret@.len() == 32,
        libp2p_secret_key_valid(secret@),
{
    let secret_key = libp2p::identity::secp256k1::SecretKey::generate();
    secret_key.to_bytes().to_vec()
}

/// The public key of the key pair that libp2p makes from a secret key, by
/// `secp256k1::Keypair::from`, `public` and `to_bytes`: 33 bytes. Trusted.
#[verifier::external_body]
fn public_key_of(secret: &[u8]) -> (key: Vec<u8>)
    requires
        libp2p_secret_key_valid(secret@),
    ensures
        key@ == libp2p_public_key(secret@),
        key@.len() == 33,
{
    let secret_key = libp2p::identity::secp256k1::SecretKey::try_from_bytes(secret.to_vec())
        .expect("a valid secret key");
    libp2p::identity::secp256k1::Keypair::from(secret_key).public().to_bytes().to_vec()
}

/// The peer id of the key pair that libp2p makes from a secret key, by
/// `Keypair::from`, `public` and `to_peer_id`, written in base 58. Trusted.
#[verifier::external_body]
fn peer_id_of(secret: &[u8]) -> (peer_id: String)
    requires
        libp2p_secret_key_valid(secret@),
    ensures
        peer_id@ == libp2p_peer_id(secret@),
{
    let secret_key = libp2p::identity::secp256k1::SecretKey::try_from_bytes(secret.to_vec())
        .expect("a valid secret key");
    let keypair = libp2p::identity::Keypair::from(
        libp2p::identity::secp256k1::Keypair::from(secret_key),
    );
    keypair.public().to_peer_id().to_base58()
}

/// Why there are no credentials.
#[derive(Clone, Copy, Debug, PartialEq, Eq, Structural)]
pub enum CredentialsError {
    /// The private key is no hex encoding.
    KeyNotHex,
    /// The private key's bytes are no valid secret key.
    KeyRejected,
}

/// A node's credentials.
#[derive(Debug, PartialEq)]
pub struct Credentials {
    /// The private key as hex text.
    pub privkey: String,
    /// The compressed public key as hex text.
    pub pubkey: String,
    /// The peer id in base 58.
    pub peer_id: String,
}

pub struct CredentialsModel {
    pub privkey: Seq<char>,
    pub pubkey: Seq<char>,
    pub peer_id: Seq<char>,
}

impl View for Credentials {
    type V = CredentialsModel;

    open spec fn view(&self) -> CredentialsModel {
        CredentialsModel { privkey: self.privkey@, pubkey: self.pubkey@, peer_id: self.peer_id@ }
    }
}

/// The credentials that belong to a private key given as hex text. The text
/// is kept as it was given.
pub open spec fn credentials_of(privkey: Seq<char>) -> Result<CredentialsModel, CredentialsError> {
    if !is_hex_encoding(privkey) {
        Err(CredentialsError::KeyNotHex)
    } else if !libp2p_secret_key_valid(decode_hex(privkey)) {
        Err(CredentialsError::KeyRejected)
    } else {
        Ok(
            CredentialsModel {
                privkey,
                pubkey: encode_hex(libp2p_public_key(decode_hex(privkey))),
                peer_id: libp2p_peer_id(decode_hex(privkey)),
            },
        )
    }
}

pub open spec fn credentials_view(outcome: Result<Credentials, CredentialsError>) -> Result<
    CredentialsModel,
    CredentialsError,
> {
    match outcome {
        Ok(credentials) => Ok(credentials@),
        Err(error) => Err(error),
    }
}

/// The credentials of the secret key `secret`, whose hex text is `privkey`.
pub fn credentials_from_secret(secret: &Vec<u8>, privkey: String) -> (credentials: Credentials)
    requires
        libp2p_secret_key_valid(secret@),
        is_hex_encoding(privkey@),
        decode_hex(privkey@) == secret@,
    ensures
        Ok::<CredentialsModel, CredentialsError>(credentials@) == credentials_of(privkey@),
{
    let pubkey_bytes = public_key_of(secret.as_slice());
    let pubkey = encode(pubkey_bytes.as_slice());
    let peer_id = peer_id_of(secret.as_slice());
    Credentials { privkey, pubkey, peer_id }
}

/// The credentials for a private key, or for a fresh one where none is
/// given.
///
/// With a key, the outcome is fixed by the key. Without one, the key is
/// random, and the credentials are those that the same call gives when it is
/// handed the key that it returns.
pub fn secp256k1_creds(privkey: Option<String>) -> (credentials: Result<
    Credentials,
    CredentialsError,
>)
    ensures
        privkey matches Some(given) ==> credentials_view(credentials) == credentials_of(given@),
        privkey is None ==> (credentials matches Ok(fresh) && credentials_of(fresh.privkey@) == Ok::<
            CredentialsModel,
            CredentialsError,
        >(fresh@)),
{
    match privkey {
        Some(privkey) => {
            let keypair_bytes = match decode(privkey.as_str()) {
                Ok(bytes) => bytes,
                Err(_) => {
                    return Err(CredentialsError::KeyNotHex);
                },
            };
            if !secret_is_valid(keypair_bytes.as_slice()) {
                return Err(CredentialsError::KeyRejected);
            }
            Ok(credentials_from_secret(&keypair_bytes, privkey))
        },
        None => {
            let privkey_bytes = generate_secret();
            let privkey = encode(privkey_bytes.as_slice());
            Ok(credentials_from_secret(&privkey_bytes, privkey))
        },
    }
}

} // verus!
