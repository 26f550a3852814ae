//! The transactions that the toolkit builds.

use vstd::prelude::*;

verus! {

/// A 20-byte account or contract address.
pub type Address = [u8; 20];

pub type Balance = u128;

pub type Nonce = u128;

/// Who may call a deployed contract.
#[derive(Clone, Copy, Debug, PartialEq, Eq, Structural)]
pub enum AccessType {
    Private,
    Public,
}

/// The virtual machine that runs a contract's code.
#[derive(Clone, Copy, Debug, PartialEq, Eq, Structural)]
pub enum ContractType {
    L1xVm,
    Evm,
}

/// The payload of a transaction. It belongs to the call that builds it and
/// does not change once signed.
#[derive(Debug, PartialEq)]
pub enum TransactionType {
    Deployment { access_type: AccessType, contract_type: ContractType, code_bytes: Vec<u8> },
    Init { deployed_address: Vec<u8>, init_args: Vec<u8> },
    FunctionCall { contract_address: Vec<u8>, function_selector: Vec<u8>, arguments: Vec<u8> },
    ReadOnlyCall { contract_address: Vec<u8>, function_selector: Vec<u8>, arguments: Vec<u8> },
    NativeTransfer { to_address: Vec<u8>, amount: Balance },
}

pub enum TransactionModel {
    Deployment { access_type: AccessType, contract_type: ContractType, code_bytes: Seq<u8> },
    Init { deployed_address: Seq<u8>, init_args: Seq<u8> },
    FunctionCall { contract_address: Seq<u8>, function_selector: Seq<u8>, arguments: Seq<u8> },
    ReadOnlyCall { contract_address: Seq<u8>, function_selector: Seq<u8>, arguments: Seq<u8> },
    NativeTransfer { to_address: Seq<u8>, amount: Balance },
}

impl View for TransactionType {
    type V = TransactionModel;

    open spec fn view(&self) -> TransactionModel {
        match self {
            TransactionType::Deployment {
                access_type,
                contract_type,
                code_bytes,
            } => TransactionModel::Deployment {
                access_type: *access_type,
                contract_type: *contract_type,
                code_bytes: code_bytes@,
            },
            TransactionType::Init { deployed_address, init_args } => TransactionModel::Init {
                deployed_address: deployed_address@,
                init_args: init_args@,
            },
            TransactionType::FunctionCall {
                contract_address,
                function_selector,
                arguments,
            } => TransactionModel::FunctionCall {
                contract_address: contract_address@,
                function_selector: function_selector@,
                arguments: arguments@,
            },
            TransactionType::ReadOnlyCall {
                contract_address,
                function_selector,
                arguments,
            } => TransactionModel::ReadOnlyCall {
                contract_address: contract_address@,
                function_selector: function_selector@,
                arguments: arguments@,
            },
            TransactionType::NativeTransfer { to_address, amount } => {
                TransactionModel::NativeTransfer { to_address: to_address@, amount: *amount }
            },
        }
    }
}

/// A transaction with the signature over it. Signature and verifying key
/// are derived from the secret key, never supplied by the user.
#[derive(Debug, PartialEq)]
pub struct SignedTransaction {
    pub nonce: Nonce,
    pub fee_limit: Balance,
    pub signature: Vec<u8>,
    pub verifying_key: Vec<u8>,
    pub transaction_type: TransactionType,
}

pub struct SignedTransactionModel {
    pub nonce: Nonce,
    pub fee_limit: Balance,
    pub signature: Seq<u8>,
    pub verifying_key: Seq<u8>,
    pub transaction_type: TransactionModel,
}

impl View for SignedTransaction {
    type V = SignedTransactionModel;

    open spec fn view(&self) -> SignedTransactionModel {
        SignedTransactionModel {
            nonce: self.nonce,
            fee_limit: self.fee_limit,
            signature: self.signature@,
            verifying_key: self.verifying_key@,
            transaction_type: self.transaction_type@,
        }
    }
}

/// A transaction that is ready but for its signature.
#[derive(Debug, PartialEq)]
pub struct UnsignedTransaction {
    pub nonce: Nonce,
    pub fee_limit: Balance,
    pub verifying_key: Vec<u8>,
    pub transaction_type: TransactionType,
}

pub struct UnsignedTransactionModel {
    pub nonce: Nonce,
    pub fee_limit: Balance,
    pub verifying_key: Seq<u8>,
    pub transaction_type: TransactionModel,
}

impl View for UnsignedTransaction {
    type V = UnsignedTransactionModel;

    open spec fn view(&self) -> UnsignedTransactionModel {
        UnsignedTransactionModel {
            nonce: self.nonce,
            fee_limit: self.fee_limit,
            verifying_key: self.verifying_key@,
            transaction_type: self.transaction_type@,
        }
    }
}

/// The signed form of `unsigned` under `signature`.
pub open spec fn with_signature(
    unsigned: UnsignedTransactionModel,
    signature: Seq<u8>,
) -> SignedTransactionModel {
    SignedTransactionModel {
        nonce: unsigned.nonce,
        fee_limit: unsigned.fee_limit,
        signature,
        verifying_key: unsigned.verifying_key,
        transaction_type: unsigned.transaction_type,
    }
}

impl UnsignedTransaction {
    /// Attaches the signature.
    pub fn sign_with(self, signature: Vec<u8>) -> (signed: SignedTransaction)
        ensures
            signed@ == with_signature(self@, signature@),
    {
        SignedTransaction {
            nonce: self.nonce,
            fee_limit: self.fee_limit,
            signature,
            verifying_key: self.verifying_key,
            transaction_type: self.transaction_type,
        }
    }
}

/// The two ways in which a transaction's payload is brought into the bytes
/// that are signed.
#[derive(Clone, Copy, Debug, PartialEq, Eq, Structural)]
pub enum SigningStrategy {
    /// The payload as compact JSON, hashed with SHA-256.
    JsonHash,
    /// The payload in the node protocol's own encoding.
    ProtocolEncoding,
}

/// Native transfers are signed over JSON, every other transaction over the
/// protocol encoding.
pub open spec fn strategy_of(transaction: TransactionModel) -> SigningStrategy {
    if transaction is NativeTransfer {
        SigningStrategy::JsonHash
    } else {
        SigningStrategy::ProtocolEncoding
    }
}

/// Which strategy signs `transaction`.
pub fn signing_strategy(transaction: &TransactionType) -> (strategy: SigningStrategy)
    ensures
        strategy == strategy_of(transaction@),
{
    match transaction {
        TransactionType::NativeTransfer { .. } => SigningStrategy::JsonHash,
        _ => SigningStrategy::ProtocolEncoding,
    }
}

} // verus!
