//! Accounts and the addresses that are derived for them.
//!
//! An address is the last 20 bytes of a Keccak-256 digest: of the public key
//! for an account, and of the creator's address, the cluster's address and a
//! nonce for a contract, an instance or a pool. The digest of a key is taken
//! with ethers, the others with sha3.

use crate::transaction::{Address, Balance, Nonce};
use sha3::Digest;
use vstd::prelude::*;

verus! {

/// The Keccak-256 digest, 32 bytes, of `data`, as sha3 computes it.
pub uninterp spec fn keccak256(data: Seq<u8>) -> Seq<u8>;

/// The Keccak-256 digest, 32 bytes, of `data`, as ethers computes it.
pub uninterp spec fn ethers_keccak256(data: Seq<u8>) -> Seq<u8>;

/// The uncompressed form, 65 bytes, of the public key that secp256k1 parses
/// from `key`, or `None` where it parses none.
pub uninterp spec fn secp256k1_uncompressed_key(key: Seq<u8>) -> Option<Seq<u8>>;

/// The uncompressed SEC1 encoding, 65 bytes, of the public key that k256
/// parses from the SEC1 bytes `point`, or `None` where it parses none.
pub uninterp spec fn k256_uncompressed_point(point: Seq<u8>) -> Option<Seq<u8>>;

/// `Keccak256::digest` of sha3. The digest is always 32 bytes. Trusted.
#[verifier::external_body]
fn keccak256_digest(data: &[u8]) -> (digest: Vec<u8>)
    ensures
        digest@ == keccak256(data@),
        digest@.len() == 32,
{
    sha3::Keccak256::digest(data).to_vec()
}

/// `ethers::utils::keccak256`, which returns an array of 32 bytes. Trusted.
#[verifier::external_body]
fn ethers_keccak256_digest(data: &[u8]) -> (digest: Vec<u8>)
    ensures
        digest@ == ethers_keccak256(data@),
        digest@.len() == 32,
{
    ethers::utils::keccak256(data).to_vec()
}

/// `secp256k1::PublicKey::from_slice`, then `serialize_uncompressed`, which
/// returns an array of 65 bytes. Trusted.
#[verifier::external_body]
fn uncompressed_key(key: &[u8]) -> (uncompressed: Option<Vec<u8>>)
    ensures
        match uncompressed {
            Some(bytes) => secp256k1_uncompressed_key(key@) == Some(bytes@) && bytes@.len() == 65,
            None => secp256k1_uncompressed_key(key@) is None,
        },
{
    match secp256k1::PublicKey::from_slice(key) {
        Ok(public_key) => Some(public_key.serialize_uncompressed().to_vec()),
        Err(_) => None,
    }
}

/// `k256::PublicKey::from_sec1_bytes`, then `to_encoded_point` without
/// compression. A public key is never the point at infinity, so its
/// uncompressed encoding is the tag and two coordinates: 65 bytes. Trusted.
#[verifier::external_body]
fn uncompressed_point(point: &[u8]) -> (encoded: Option<Vec<u8>>)
    ensures
        match encoded {
            Some(bytes) => k256_uncompressed_point(point@) == Some(bytes@) && bytes@.len() == 65,
            None => k256_uncompressed_point(point@) is None,
        },
{
    match k256::PublicKey::from_sec1_bytes(point) {
        Ok(public_key) => Some(
            k256::elliptic_curve::sec1::ToEncodedPoint::to_encoded_point(&public_key, false)
                .as_bytes().to_vec(),
        ),
        Err(_) => None,
    }
}

#[derive(Clone, Copy, Debug, PartialEq, Eq, Structural)]
pub enum AccountType {
    System,
    User,
}

#[derive(Clone, Debug, PartialEq)]
pub struct Account {
    pub address: Address,
    pub balance: Balance,
    pub nonce: Nonce,
    pub account_type: AccountType,
}

/// The bytes are no public key.
#[derive(Clone, Copy, Debug, PartialEq, Eq, Structural)]
pub struct InvalidPublicKey;

/// The sixteen bytes of `n`, most significant first.
pub open spec fn be_bytes(n: nat, len: nat) -> Seq<u8>
    decreases len,
{
    if len == 0 {
        Seq::empty()
    } else {
        be_bytes(n / 256, (len - 1) as nat).push((n % 256) as u8)
    }
}

/// The last 20 bytes of the digest of `data`.
pub open spec fn digest_address(data: Seq<u8>) -> Seq<u8> {
    keccak256(data).skip(12)
}

/// The last 20 bytes of the digest of a public key's two coordinates.
pub open spec fn key_address(coordinates: Seq<u8>) -> Seq<u8> {
    ethers_keccak256(coordinates).skip(12)
}

/// The address of the account with the verifying key `key`: the digest of
/// the key's two coordinates.
pub open spec fn account_address(key: Seq<u8>) -> Result<Seq<u8>, InvalidPublicKey> {
    match secp256k1_uncompressed_key(key) {
        None => Err(InvalidPublicKey),
        Some(uncompressed) => match k256_uncompressed_point(uncompressed) {
            None => Err(InvalidPublicKey),
            Some(point) => Ok(key_address(point.skip(1))),
        },
    }
}

/// The address that creator, cluster and nonce give.
pub open spec fn derived_address(creator: Seq<u8>, cluster: Seq<u8>, nonce: Nonce) -> Seq<u8> {
    digest_address(creator + cluster + be_bytes(nonce as nat, 16))
}

/// The address that creator, contract, cluster and nonce give.
pub open spec fn derived_instance_address(
    creator: Seq<u8>,
    contract: Seq<u8>,
    cluster: Seq<u8>,
    nonce: Nonce,
) -> Seq<u8> {
    digest_address(creator + contract + cluster + be_bytes(nonce as nat, 16))
}

pub open spec fn address_view(outcome: Result<Address, InvalidPublicKey>) -> Result<
    Seq<u8>,
    InvalidPublicKey,
> {
    match outcome {
        Ok(address) => Ok(address@),
        Err(error) => Err(error),
    }
}

/// Appends the sixteen bytes of `n`, most significant first.
fn push_be_bytes(out: &mut Vec<u8>, n: u128)
    ensures
        final(out)@ == old(out)@ + be_bytes(n as nat, 16),
{
    let ghost start = out@;
    let mut digits: [u8; 16] = [0u8; 16];
    let mut rest = n;
    let mut i: usize = 0;
    while i < 16
        invariant
            i <= 16,
            be_bytes(n as nat, 16) == be_bytes(rest as nat, (16 - i) as nat) + digits@.skip(
                16 - i,
            ),
        decreases 16 - i,
    {
        let ghost before = digits@;
        digits[15 - i] = (rest % 256) as u8;
        proof {
            let tail = before.skip(16 - i);
            assert(digits@.skip(15 - i) =~= seq![(rest % 256) as u8] + tail);
            assert(be_bytes(rest as nat, (16 - i) as nat) == be_bytes(
                (rest / 256) as nat,
                (15 - i) as nat,
            ).push((rest % 256) as u8));
            assert(be_bytes(rest as nat, (16 - i) as nat) + tail =~= be_bytes(
                (rest / 256) as nat,
                (15 - i) as nat,
            ) + digits@.skip(15 - i));
        }
        rest = rest / 256;
        i += 1;
    }
    assert(be_bytes(rest as nat, 0) + digits@.skip(0) =~= digits@);
    let mut j: usize = 0;
    while j < 16
        invariant
            j <= 16,
            out@ == start + digits@.take(j as int),
        decreases 16 - j,
    {
        out.push(digits[j]);
        assert(digits@.take(j + 1) =~= digits@.take(j as int).push(digits@[j as int]));
        j += 1;
    }
    assert(digits@.take(16) =~= digits@);
}

/// Appends the bytes of `address`.
fn push_address(out: &mut Vec<u8>, address: &Address)
    ensures
        final(out)@ == old(out)@ + address@,
{
    let ghost start = out@;
    let mut i: usize = 0;
    while i < 20
        invariant
            i <= 20,
            out@ == start + address@.take(i as int),
        decreases 20 - i,
    {
        out.push(address[i]);
        assert(address@.take(i + 1) =~= address@.take(i as int).push(address@[i as int]));
        i += 1;
    }
    assert(address@.take(20) =~= address@);
}

/// The last 20 bytes of a digest.
fn last_twenty(hash: &Vec<u8>) -> (address: Address)
    requires
        hash@.len() == 32,
    ensures
        address@ == hash@.skip(12),
{
    let mut address: Address = [0u8; 20];
    let mut i: usize = 0;
    while i < 20
        invariant
            i <= 20,
            hash@.len() == 32,
            forall|j: int| 0 <= j < i ==> address@[j] == hash@[12 + j],
        decreases 20 - i,
    {
        address[i] = hash[12 + i];
        i += 1;
    }
    assert(address@ =~= hash@.skip(12));
    address
}

/// The last 20 bytes of the digest of `data`.
fn address_from_digest(data: &[u8]) -> (address: Address)
    ensures
        address@ == digest_address(data@),
{
    let hash = keccak256_digest(data);
    last_twenty(&hash)
}

impl Account {
    /// A user account without balance.
    pub fn new(address: Address) -> (account: Account)
        ensures
            account == (Account { address, balance: 0, nonce: 0, account_type: AccountType::User }),
    {
        Account { address, balance: 0, nonce: 0, account_type: AccountType::User }
    }

    /// A system account without balance.
    pub fn new_system(address: Address) -> (account: Account)
        ensures
            account == (Account {
                address,
                balance: 0,
                nonce: 0,
                account_type: AccountType::System,
            }),
    {
        Account { address, balance: 0, nonce: 0, account_type: AccountType::System }
    }

    /// The address of the account that signs with the key of which
    /// `verifying_key_bytes` is the public part.
    pub fn address(verifying_key_bytes: &[u8]) -> (address: Result<Address, InvalidPublicKey>)
        ensures
            address_view(address) == account_address(verifying_key_bytes@),
    {
        let public_key = match uncompressed_key(verifying_key_bytes) {
            Some(public_key) => public_key,
            None => {
                return Err(InvalidPublicKey);
            },
        };
        let k_pub_bytes = match uncompressed_point(public_key.as_slice()) {
            Some(k_pub_bytes) => k_pub_bytes,
            None => {
                return Err(InvalidPublicKey);
            },
        };
        let coordinates = vstd::slice::slice_subrange(k_pub_bytes.as_slice(), 1, k_pub_bytes.len());
        assert(coordinates@ =~= k_pub_bytes@.skip(1));
        let hash = ethers_keccak256_digest(coordinates);
        Ok(last_twenty(&hash))
    }

    /// The address of the contract that `account_address` deploys on the
    /// cluster with the given nonce.
    pub fn contract_address(account_address: &Address, cluster_address: &Address, nonce: Nonce) -> (
        address: Address)
        ensures
            address@ == derived_address(account_address@, cluster_address@, nonce),
    {
        let mut input: Vec<u8> = Vec::new();
        push_address(&mut input, account_address);
        push_address(&mut input, cluster_address);
        push_be_bytes(&mut input, nonce);
        assert(input@ =~= account_address@ + cluster_address@ + be_bytes(nonce as nat, 16));
        address_from_digest(input.as_slice())
    }

    /// The address of the instance of `contract_address` that
    /// `account_address` initialises on the cluster with the given nonce.
    pub fn contract_instance_address(
        account_address: &Address,
        contract_address: &Address,
        cluster_address: &Address,
        nonce: Nonce,
    ) -> (address: Address)
        ensures
            address@ == derived_instance_address(
                account_address@,
                contract_address@,
                cluster_address@,
                nonce,
            ),
    {
        let mut input: Vec<u8> = Vec::new();
        push_address(&mut input, account_address);
        push_address(&mut input, contract_address);
        push_address(&mut input, cluster_address);
        push_be_bytes(&mut input, nonce);
        assert(input@ =~= account_address@ + contract_address@ + cluster_address@ + be_bytes(
            nonce as nat,
            16,
        ));
        address_from_digest(input.as_slice())
    }

    /// The address of the pool that `account_address` creates on the cluster
    /// with the given nonce.
    pub fn pool_address(account_address: &Address, cluster_address: &Address, nonce: Nonce) -> (
        address: Address)
        ensures
            address@ == derived_address(account_address@, cluster_address@, nonce),
    {
        Account::contract_address(account_address, cluster_address, nonce)
    }
}

} // verus!
