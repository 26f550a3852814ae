//! One transaction on its way to the node: fetch the nonce, sign, submit,
//! wait, poll the events.
//!
//! The library decides; the caller does the outside work. `begin` and
//! `advance` say, for the stage that a transaction is in and for what the
//! caller reports, which stage comes next and what the caller is to do. The
//! order is fixed: nothing is submitted before the nonce is known and the
//! signature made, and nothing is polled before the submission was accepted
//! and the delay has passed.
//!
//! The wait is one fixed delay and the poll is one request: whether the node
//! has confirmed the transaction by then is not checked here.

use crate::error::ErrorKind;
use crate::signer::{
    get_submit_txn_req, key_of, secp256k1_public_key, submit_request, SigningKey,
    SubmitRequestError, SubmitTxnRequest, SubmitTxnRequestModel,
};
use crate::transaction::{
    with_signature, Balance, Nonce, SignedTransaction, SignedTransactionModel, TransactionModel,
    TransactionType, UnsignedTransaction, UnsignedTransactionModel,
};
use vstd::prelude::*;

verus! {

/// How long the caller waits between submitting and polling.
pub const CONFIRMATION_DELAY_SECONDS: u64 = 10;

/// The timestamp from which events are asked for: all of them.
pub const EVENTS_FROM_TIMESTAMP: u64 = 0;

/// What the node answers to a submission. That the node accepted the
/// transaction does not mean that the chain has confirmed it.
#[derive(Debug, PartialEq)]
pub struct SubmitTransactionResponse {
    pub hash: String,
    pub contract_address: Option<String>,
}

pub struct SubmitResponseModel {
    pub hash: Seq<char>,
    pub contract_address: Option<Seq<char>>,
}

impl View for SubmitTransactionResponse {
    type V = SubmitResponseModel;

    open spec fn view(&self) -> SubmitResponseModel {
        SubmitResponseModel {
            hash: self.hash@,
            contract_address: self.contract_address.deep_view(),
        }
    }
}

/// Where a transaction stands.
#[derive(Debug, PartialEq)]
pub enum TxnStage {
    AwaitingNonce { transaction: TransactionType },
    AwaitingSignature { unsigned: UnsignedTransaction },
    AwaitingSubmission,
    Confirming { response: SubmitTransactionResponse, delay_elapsed: bool },
}

pub enum TxnStageModel {
    AwaitingNonce { transaction: TransactionModel },
    AwaitingSignature { unsigned: UnsignedTransactionModel },
    AwaitingSubmission,
    Confirming { response: SubmitResponseModel, delay_elapsed: bool },
}

impl View for TxnStage {
    type V = TxnStageModel;

    open spec fn view(&self) -> TxnStageModel {
        match self {
            TxnStage::AwaitingNonce { transaction } => TxnStageModel::AwaitingNonce {
                transaction: transaction@,
            },
            TxnStage::AwaitingSignature { unsigned } => TxnStageModel::AwaitingSignature {
                unsigned: unsigned@,
            },
            TxnStage::AwaitingSubmission => TxnStageModel::AwaitingSubmission,
            TxnStage::Confirming { response, delay_elapsed } => TxnStageModel::Confirming {
                response: response@,
                delay_elapsed: *delay_elapsed,
            },
        }
    }
}

/// What the caller reports back.
#[derive(Debug)]
pub enum TxnEvent {
    /// The nonce that the chain last saw for the account.
    Nonce(Nonce),
    NonceFailed(String),
    /// The signature over the protocol encoding of the unsigned transaction.
    Signature(Vec<u8>),
    SigningFailed(String),
    Submitted(SubmitTransactionResponse),
    SubmitFailed(String),
    DelayElapsed,
    Events(Vec<Vec<u8>>),
    EventsFailed(String),
}

pub enum TxnEventModel {
    Nonce(Nonce),
    NonceFailed(Seq<char>),
    Signature(Seq<u8>),
    SigningFailed(Seq<char>),
    Submitted(SubmitResponseModel),
    SubmitFailed(Seq<char>),
    DelayElapsed,
    Events(Seq<Seq<u8>>),
    EventsFailed(Seq<char>),
}

impl View for TxnEvent {
    type V = TxnEventModel;

    open spec fn view(&self) -> TxnEventModel {
        match self {
            TxnEvent::Nonce(nonce) => TxnEventModel::Nonce(*nonce),
            TxnEvent::NonceFailed(detail) => TxnEventModel::NonceFailed(detail@),
            TxnEvent::Signature(signature) => TxnEventModel::Signature(signature@),
            TxnEvent::SigningFailed(detail) => TxnEventModel::SigningFailed(detail@),
            TxnEvent::Submitted(response) => TxnEventModel::Submitted(response@),
            TxnEvent::SubmitFailed(detail) => TxnEventModel::SubmitFailed(detail@),
            TxnEvent::DelayElapsed => TxnEventModel::DelayElapsed,
            TxnEvent::Events(events) => TxnEventModel::Events(events.deep_view()),
            TxnEvent::EventsFailed(detail) => TxnEventModel::EventsFailed(detail@),
        }
    }
}

/// What the caller is to do next.
#[derive(Debug, PartialEq)]
pub enum TxnAction {
    /// Ask the node for the account's nonce.
    FetchNonce { verifying_key: Vec<u8> },
    /// Sign the transaction over its protocol encoding.
    Sign(UnsignedTransaction),
    /// Send the signed transaction to the node.
    Submit(SignedTransaction),
    /// Let the delay pass.
    Wait { seconds: u64 },
    /// Ask the node for the events of the transaction.
    GetEvents { tx_hash: String, timestamp: u64 },
}

pub enum TxnActionModel {
    FetchNonce { verifying_key: Seq<u8> },
    Sign(UnsignedTransactionModel),
    Submit(SignedTransactionModel),
    Wait { seconds: u64 },
    GetEvents { tx_hash: Seq<char>, timestamp: u64 },
}

impl View for TxnAction {
    type V = TxnActionModel;

    open spec fn view(&self) -> TxnActionModel {
        match self {
            TxnAction::FetchNonce { verifying_key } => TxnActionModel::FetchNonce {
                verifying_key: verifying_key@,
            },
            TxnAction::Sign(unsigned) => TxnActionModel::Sign(unsigned@),
            TxnAction::Submit(signed) => TxnActionModel::Submit(signed@),
            TxnAction::Wait { seconds } => TxnActionModel::Wait { seconds: *seconds },
            TxnAction::GetEvents { tx_hash, timestamp } => TxnActionModel::GetEvents {
                tx_hash: tx_hash@,
                timestamp: *timestamp,
            },
        }
    }
}

/// The outcome of one step.
#[derive(Debug, PartialEq)]
pub enum TxnStep {
    /// The transaction moved on; the caller performs the action.
    Next { stage: TxnStage, action: TxnAction },
    /// The events are in: the transaction's part is done.
    Confirmed { response: SubmitTransactionResponse, events: Vec<Vec<u8>> },
    /// The transaction failed for good.
    Failed { kind: ErrorKind, message: String },
    /// The stage does not await this report; nothing has changed.
    Unexpected { stage: TxnStage },
}

pub enum TxnStepModel {
    Next { stage: TxnStageModel, action: TxnActionModel },
    Confirmed { response: SubmitResponseModel, events: Seq<Seq<u8>> },
    Failed { kind: ErrorKind, message: Seq<char> },
    Unexpected { stage: TxnStageModel },
}

impl View for TxnStep {
    type V = TxnStepModel;

    open spec fn view(&self) -> TxnStepModel {
        match self {
            TxnStep::Next { stage, action } => TxnStepModel::Next {
                stage: stage@,
                action: action@,
            },
            TxnStep::Confirmed { response, events } => TxnStepModel::Confirmed {
                response: response@,
                events: events.deep_view(),
            },
            TxnStep::Failed { kind, message } => TxnStepModel::Failed {
                kind: *kind,
                message: message@,
            },
            TxnStep::Unexpected { stage } => TxnStepModel::Unexpected { stage: stage@ },
        }
    }
}

/// What a failure to build the request is reported as.
pub open spec fn request_error_message(error: SubmitRequestError) -> Seq<char> {
    match error {
        SubmitRequestError::KeyNotHex => "unable to hex decode private_key"@,
        SubmitRequestError::KeyRejected => "failed to parse provided private_key"@,
        SubmitRequestError::AddressLength => "failed to convert address bytes to array"@,
    }
}

/// The first step of a transaction: with a usable key, ask for the nonce
/// under the key's verifying key.
pub open spec fn begin_spec(private_key: Seq<char>, transaction: TransactionModel) -> TxnStepModel {
    match key_of(private_key) {
        Err(error) => TxnStepModel::Failed {
            kind: error.kind_spec(),
            message: request_error_message(error),
        },
        Ok(key) => TxnStepModel::Next {
            stage: TxnStageModel::AwaitingNonce { transaction },
            action: TxnActionModel::FetchNonce { verifying_key: secp256k1_public_key(key) },
        },
    }
}

/// The step from `stage` on `event`.
///
/// The nonce that is submitted is the one the chain last saw, plus one.
pub open spec fn advance_spec(
    private_key: Seq<char>,
    fee_limit: Balance,
    stage: TxnStageModel,
    event: TxnEventModel,
) -> TxnStepModel {
    match (stage, event) {
        (TxnStageModel::AwaitingNonce { transaction }, TxnEventModel::Nonce(observed)) => {
            if observed == u128::MAX {
                TxnStepModel::Failed {
                    kind: ErrorKind::Rpc,
                    message: "the account's nonce cannot be incremented"@,
                }
            } else {
                match submit_request(
                    transaction,
                    private_key,
                    fee_limit,
                    (observed + 1) as u128,
                ) {
                    Err(error) => TxnStepModel::Failed {
                        kind: error.kind_spec(),
                        message: request_error_message(error),
                    },
                    Ok(SubmitTxnRequestModel::Signed(signed)) => TxnStepModel::Next {
                        stage: TxnStageModel::AwaitingSubmission,
                        action: TxnActionModel::Submit(signed),
                    },
                    Ok(SubmitTxnRequestModel::AwaitingProtocolSignature(unsigned)) => {
                        TxnStepModel::Next {
                            stage: TxnStageModel::AwaitingSignature { unsigned },
                            action: TxnActionModel::Sign(unsigned),
                        }
                    },
                }
            }
        },
        (TxnStageModel::AwaitingNonce { .. }, TxnEventModel::NonceFailed(detail)) => {
            TxnStepModel::Failed { kind: ErrorKind::Rpc, message: detail }
        },
        (TxnStageModel::AwaitingSignature { unsigned }, TxnEventModel::Signature(signature)) => {
            TxnStepModel::Next {
                stage: TxnStageModel::AwaitingSubmission,
                action: TxnActionModel::Submit(with_signature(unsigned, signature)),
            }
        },
        (TxnStageModel::AwaitingSignature { .. }, TxnEventModel::SigningFailed(detail)) => {
            TxnStepModel::Failed { kind: ErrorKind::Signing, message: detail }
        },
        (TxnStageModel::AwaitingSubmission, TxnEventModel::Submitted(response)) => {
            TxnStepModel::Next {
                stage: TxnStageModel::Confirming { response, delay_elapsed: false },
                action: TxnActionModel::Wait { seconds: CONFIRMATION_DELAY_SECONDS },
            }
        },
        (TxnStageModel::AwaitingSubmission, TxnEventModel::SubmitFailed(detail)) => {
            TxnStepModel::Failed { kind: ErrorKind::Rpc, message: detail }
        },
        (
            TxnStageModel::Confirming { response, delay_elapsed: false },
            TxnEventModel::DelayElapsed,
        ) => TxnStepModel::Next {
            stage: TxnStageModel::Confirming { response, delay_elapsed: true },
            action: TxnActionModel::GetEvents {
                tx_hash: response.hash,
                timestamp: EVENTS_FROM_TIMESTAMP,
            },
        },
        (
            TxnStageModel::Confirming { response, delay_elapsed: true },
            TxnEventModel::Events(events),
        ) => TxnStepModel::Confirmed { response, events },
        (
            TxnStageModel::Confirming { delay_elapsed: true, .. },
            TxnEventModel::EventsFailed(detail),
        ) => TxnStepModel::Failed { kind: ErrorKind::Rpc, message: detail },
        (stage, _) => TxnStepModel::Unexpected { stage },
    }
}

/// A copy of the bytes.
pub fn copy_bytes(bytes: &Vec<u8>) -> (copy: Vec<u8>)
    ensures
        copy@ == bytes@,
{
    let mut copy: Vec<u8> = Vec::new();
    let mut i: usize = 0;
    while i < bytes.len()
        invariant
            i <= bytes@.len(),
            copy@ == bytes@.take(i as int),
        decreases bytes@.len() - i,
    {
        copy.push(bytes[i]);
        assert(bytes@.take(i + 1) =~= bytes@.take(i as int).push(bytes@[i as int]));
        i += 1;
    }
    assert(bytes@.take(i as int) =~= bytes@);
    copy
}

impl TransactionType {
    /// A copy of the transaction.
    pub fn duplicate(&self) -> (copy: TransactionType)
        ensures
            copy@ == self@,
    {
        match self {
            TransactionType::Deployment {
                access_type,
                contract_type,
                code_bytes,
            } => TransactionType::Deployment {
                access_type: *access_type,
                contract_type: *contract_type,
                code_bytes: copy_bytes(code_bytes),
            },
            TransactionType::Init { deployed_address, init_args } => TransactionType::Init {
                deployed_address: copy_bytes(deployed_address),
                init_args: copy_bytes(init_args),
            },
            TransactionType::FunctionCall {
                contract_address,
                function_selector,
                arguments,
            } => TransactionType::FunctionCall {
                contract_address: copy_bytes(contract_address),
                function_selector: copy_bytes(function_selector),
                arguments: copy_bytes(arguments),
            },
            TransactionType::ReadOnlyCall {
                contract_address,
                function_selector,
                arguments,
            } => TransactionType::ReadOnlyCall {
                contract_address: copy_bytes(contract_address),
                function_selector: copy_bytes(function_selector),
                arguments: copy_bytes(arguments),
            },
            TransactionType::NativeTransfer { to_address, amount } => {
                TransactionType::NativeTransfer {
                    to_address: copy_bytes(to_address),
                    amount: *amount,
                }
            },
        }
    }
}

impl UnsignedTransaction {
    /// A copy of the unsigned transaction.
    pub fn duplicate(&self) -> (copy: UnsignedTransaction)
        ensures
            copy@ == self@,
    {
        UnsignedTransaction {
            nonce: self.nonce,
            fee_limit: self.fee_limit,
            verifying_key: copy_bytes(&self.verifying_key),
            transaction_type: self.transaction_type.duplicate(),
        }
    }
}

/// The message for a failure to build the request.
fn request_error_text(error: SubmitRequestError) -> (message: String)
    ensures
        message@ == request_error_message(error),
{
    match error {
        SubmitRequestError::KeyNotHex => "unable to hex decode private_key".to_owned(),
        SubmitRequestError::KeyRejected => "failed to parse provided private_key".to_owned(),
        SubmitRequestError::AddressLength => "failed to convert address bytes to array".to_owned(),
    }
}

/// Starts a transaction: checks the key and asks for the account's nonce.
pub fn begin(private_key: &str, transaction: TransactionType) -> (step: TxnStep)
    ensures
        step@ == begin_spec(private_key@, transaction@),
{
    match SigningKey::from_hex(private_key) {
        Err(error) => TxnStep::Failed { kind: error.kind(), message: request_error_text(error) },
        Ok(key) => TxnStep::Next {
            stage: TxnStage::AwaitingNonce { transaction },
            action: TxnAction::FetchNonce { verifying_key: key.verifying_key() },
        },
    }
}

/// Moves a transaction on by one report of the caller.
pub fn advance(private_key: &str, fee_limit: Balance, stage: TxnStage, event: TxnEvent) -> (step:
    TxnStep)
    ensures
        step@ == advance_spec(private_key@, fee_limit, stage@, event@),
{
    match stage {
        TxnStage::AwaitingNonce { transaction } => match event {
            TxnEvent::Nonce(observed) => {
                if observed == u128::MAX {
                    return TxnStep::Failed {
                        kind: ErrorKind::Rpc,
                        message: "the account's nonce cannot be incremented".to_owned(),
                    };
                }
                match get_submit_txn_req(transaction, private_key, fee_limit, observed + 1) {
                    Err(error) => TxnStep::Failed {
                        kind: error.kind(),
                        message: request_error_text(error),
                    },
                    Ok(SubmitTxnRequest::Signed(signed)) => TxnStep::Next {
                        stage: TxnStage::AwaitingSubmission,
                        action: TxnAction::Submit(signed),
                    },
                    Ok(SubmitTxnRequest::AwaitingProtocolSignature(unsigned)) => {
                        let request = unsigned.duplicate();
                        TxnStep::Next {
                            stage: TxnStage::AwaitingSignature { unsigned },
                            action: TxnAction::Sign(request),
                        }
                    },
                }
            },
            TxnEvent::NonceFailed(detail) => TxnStep::Failed {
                kind: ErrorKind::Rpc,
                message: detail,
            },
            _ => TxnStep::Unexpected { stage: TxnStage::AwaitingNonce { transaction } },
        },
        TxnStage::AwaitingSignature { unsigned } => match event {
            TxnEvent::Signature(signature) => TxnStep::Next {
                stage: TxnStage::AwaitingSubmission,
                action: TxnAction::Submit(unsigned.sign_with(signature)),
            },
            TxnEvent::SigningFailed(detail) => TxnStep::Failed {
                kind: ErrorKind::Signing,
                message: detail,
            },
            _ => TxnStep::Unexpected { stage: TxnStage::AwaitingSignature { unsigned } },
        },
        TxnStage::AwaitingSubmission => match event {
            TxnEvent::Submitted(response) => TxnStep::Next {
                stage: TxnStage::Confirming { response, delay_elapsed: false },
                action: TxnAction::Wait { seconds: CONFIRMATION_DELAY_SECONDS },
            },
            TxnEvent::SubmitFailed(detail) => TxnStep::Failed {
                kind: ErrorKind::Rpc,
                message: detail,
            },
            _ => TxnStep::Unexpected { stage: TxnStage::AwaitingSubmission },
        },
        TxnStage::Confirming { response, delay_elapsed } => {
            if !delay_elapsed {
                match event {
                    TxnEvent::DelayElapsed => {
                        let tx_hash = response.hash.clone();
                        TxnStep::Next {
                            stage: TxnStage::Confirming { response, delay_elapsed: true },
                            action: TxnAction::GetEvents {
                                tx_hash,
                                timestamp: EVENTS_FROM_TIMESTAMP,
                            },
                        }
                    },
                    _ => TxnStep::Unexpected {
                        stage: TxnStage::Confirming { response, delay_elapsed },
                    },
                }
            } else {
                match event {
                    TxnEvent::Events(events) => TxnStep::Confirmed { response, events },
                    TxnEvent::EventsFailed(detail) => TxnStep::Failed {
                        kind: ErrorKind::Rpc,
                        message: detail,
                    },
                    _ => TxnStep::Unexpected {
                        stage: TxnStage::Confirming { response, delay_elapsed },
                    },
                }
            }
        },
    }
}

/// The JSON-RPC method that an action is carried out with, for the actions
/// that are one request to a fixed method: a submission and a poll for
/// events.
pub open spec fn rpc_method_spec(action: TxnActionModel) -> Option<Seq<char>> {
    match action {
        TxnActionModel::Submit(_) => Some("l1x_submitTransaction"@),
        TxnActionModel::GetEvents { .. } => Some("l1x_getEvents"@),
        _ => None,
    }
}

/// The JSON-RPC method for an action.
pub fn rpc_method(action: &TxnAction) -> (method: Option<&'static str>)
    ensures
        method.deep_view() == rpc_method_spec(action@),
{
    match action {
        TxnAction::Submit(_) => Some("l1x_submitTransaction"),
        TxnAction::GetEvents { .. } => Some("l1x_getEvents"),
        _ => None,
    }
}

/// The JSON-RPC method for a read-only call.
pub fn read_only_call_method() -> (method: &'static str)
    ensures
        method@ == "l1x_smartContractReadOnlyCall"@,
{
    "l1x_smartContractReadOnlyCall"
}

} // verus!
