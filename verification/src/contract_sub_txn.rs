//! Calling a contract that the registry knows: as a transaction, or as a
//! read-only call that the node only simulates.
//!
//! Like the install, a call is a state machine that the caller drives:
//!
//! ```text
//! Idle -> ResolveAddress -> InFlight (nonce, signature, submission, delay, events) -> Done
//!                       \-> AwaitingReadOnly -> Done
//! ```
//!
//! A run ends in `Done`, with the status object to report, or in `Failed`.

use crate::error::ErrorKind;
use crate::events::{first_event_hex, first_event_hex_spec};
use crate::hexcodec::{decode, decode_hex, encode, encode_hex, is_hex_encoding};
use crate::pipeline::{
    advance, advance_spec, begin, begin_spec, TxnAction, TxnActionModel, TxnEvent, TxnEventModel,
    TxnStage, TxnStageModel, TxnStep, TxnStepModel,
};
use crate::signer::{
    get_submit_txn_req, key_of, submit_request, SigningKey, SubmitRequestError, SubmitTxnRequest,
    SubmitTxnRequestModel,
};
use crate::text::{clean_address_string, normalize};
use crate::toolkit_config::{
    get_toolkit_ebpf_contract_address_for, get_toolkit_evm_contract_address_for, lookup_ebpf,
    lookup_evm, L1XVMContractAddressRegistry, RegistryModel,
};
use crate::transaction::{Balance, Nonce, TransactionModel, TransactionType};
use vstd::prelude::*;

pub use crate::contract_install::L1XVMType;

verus! {

/// Why a call failed, by the step that failed.
#[derive(Debug, PartialEq)]
pub enum L1XVmSubTxnError {
    HexParseError(String),
    RequestCreationError(String),
    PostJsonRpcError(String),
    JsonParseError(String),
    InValidNonceError(String),
    ContractDeploymentError(String),
}

pub enum SubTxnErrorModel {
    HexParseError(Seq<char>),
    RequestCreationError(Seq<char>),
    PostJsonRpcError(Seq<char>),
    JsonParseError(Seq<char>),
    InValidNonceError(Seq<char>),
    ContractDeploymentError(Seq<char>),
}

impl View for L1XVmSubTxnError {
    type V = SubTxnErrorModel;

    open spec fn view(&self) -> SubTxnErrorModel {
        match self {
            L1XVmSubTxnError::HexParseError(m) => SubTxnErrorModel::HexParseError(m@),
            L1XVmSubTxnError::RequestCreationError(m) => SubTxnErrorModel::RequestCreationError(m@),
            L1XVmSubTxnError::PostJsonRpcError(m) => SubTxnErrorModel::PostJsonRpcError(m@),
            L1XVmSubTxnError::JsonParseError(m) => SubTxnErrorModel::JsonParseError(m@),
            L1XVmSubTxnError::InValidNonceError(m) => SubTxnErrorModel::InValidNonceError(m@),
            L1XVmSubTxnError::ContractDeploymentError(m) => {
                SubTxnErrorModel::ContractDeploymentError(m@)
            },
        }
    }
}

impl L1XVmSubTxnError {
    /// The error in words: what failed, then the detail.
    pub fn message(&self) -> (text: String)
        ensures
            text@ == match self@ {
                SubTxnErrorModel::HexParseError(m) => "Hex parse error: "@ + m,
                SubTxnErrorModel::RequestCreationError(m) => "Request Creation error: "@ + m,
                SubTxnErrorModel::PostJsonRpcError(m) => "Post JSON RPC error: "@ + m,
                SubTxnErrorModel::JsonParseError(m) => "JSON Parse error: "@ + m,
                SubTxnErrorModel::InValidNonceError(m) => "Invalid Nonce error: "@ + m,
                SubTxnErrorModel::ContractDeploymentError(m) => "Contract Deployment error: "@ + m,
            },
    {
        match self {
            L1XVmSubTxnError::HexParseError(m) => "Hex parse error: ".to_owned().concat(m.as_str()),
            L1XVmSubTxnError::RequestCreationError(m) => "Request Creation error: ".to_owned().concat(
                m.as_str(),
            ),
            L1XVmSubTxnError::PostJsonRpcError(m) => "Post JSON RPC error: ".to_owned().concat(
                m.as_str(),
            ),
            L1XVmSubTxnError::JsonParseError(m) => "JSON Parse error: ".to_owned().concat(
                m.as_str(),
            ),
            L1XVmSubTxnError::InValidNonceError(m) => "Invalid Nonce error: ".to_owned().concat(
                m.as_str(),
            ),
            L1XVmSubTxnError::ContractDeploymentError(m) => {
                "Contract Deployment error: ".to_owned().concat(m.as_str())
            },
        }
    }
}

/// The status object that a call reports: `status` is 0 on success, and the
/// message holds the result.
#[derive(Clone, Debug, PartialEq)]
pub struct L1XVmTxnResponse {
    pub status: u8,
    pub message: String,
}

pub struct TxnResponseModel {
    pub status: u8,
    pub message: Seq<char>,
}

impl View for L1XVmTxnResponse {
    type V = TxnResponseModel;

    open spec fn view(&self) -> TxnResponseModel {
        TxnResponseModel { status: self.status, message: self.message@ }
    }
}

/// How the contract is to be called.
#[derive(Clone, Copy, Debug, PartialEq, Eq, Structural)]
pub enum L1XCallType {
    L1xCallTypeSubTxn,
    L1xCallTypeReadOnly,
}

impl L1XCallType {
    /// The variant's name.
    pub fn name(&self) -> (name: &'static str)
        ensures
            name@ == match *self {
                L1XCallType::L1xCallTypeSubTxn => "L1xCallTypeSubTxn"@,
                L1XCallType::L1xCallTypeReadOnly => "L1xCallTypeReadOnly"@,
            },
    {
        match self {
            L1XCallType::L1xCallTypeSubTxn => "L1xCallTypeSubTxn",
            L1XCallType::L1xCallTypeReadOnly => "L1xCallTypeReadOnly",
        }
    }
}

/// What to call, and how.
#[derive(Clone, Debug)]
pub struct L1XVmSubTxnCmd {
    pub vm_type: L1XVMType,
    pub owner: String,
    pub artifact_id: String,
    pub contract_id: String,
    pub call_type: L1XCallType,
    pub function_payload: String,
    pub fee_limit: Balance,
    pub req_id: u64,
}

pub struct SubTxnCmdModel {
    pub vm_type: L1XVMType,
    pub owner: Seq<char>,
    pub artifact_id: Seq<char>,
    pub contract_id: Seq<char>,
    pub call_type: L1XCallType,
    pub function_payload: Seq<char>,
    pub fee_limit: Balance,
    pub req_id: u64,
}

impl View for L1XVmSubTxnCmd {
    type V = SubTxnCmdModel;

    open spec fn view(&self) -> SubTxnCmdModel {
        SubTxnCmdModel {
            vm_type: self.vm_type,
            owner: self.owner@,
            artifact_id: self.artifact_id@,
            contract_id: self.contract_id@,
            call_type: self.call_type,
            function_payload: self.function_payload@,
            fee_limit: self.fee_limit,
            req_id: self.req_id,
        }
    }
}

/// The sentinel that a failed read-only call reports in place of a result.
pub open spec fn invalid_response() -> Seq<char> {
    "Invalid response"@
}

/// The status object for a result: success, with the result as hex.
pub open spec fn status_of(result: Seq<u8>) -> TxnResponseModel {
    TxnResponseModel { status: 0, message: encode_hex(result) }
}

/// The status object for what a read-only call returned. A status other
/// than 0 is a failure of the contract; the result bytes then mean nothing
/// and are not shown.
pub open spec fn read_only_status(status: i32, result: Seq<u8>) -> TxnResponseModel {
    if status == 0 {
        status_of(result)
    } else {
        TxnResponseModel { status: 1, message: invalid_response() }
    }
}

/// The call that `contract_address` and `function_payload` describe. Both
/// are hex; the function's name is always empty.
pub open spec fn function_call_spec(
    contract_address: Seq<char>,
    function_payload: Seq<char>,
) -> Option<TransactionModel> {
    if is_hex_encoding(contract_address) && is_hex_encoding(function_payload) {
        Some(
            TransactionModel::FunctionCall {
                contract_address: decode_hex(contract_address),
                function_selector: Seq::empty(),
                arguments: decode_hex(function_payload),
            },
        )
    } else {
        None
    }
}

/// The read-only call that `contract_address` and `function_payload`
/// describe.
pub open spec fn read_only_call_spec(
    contract_address: Seq<char>,
    function_payload: Seq<char>,
) -> Option<TransactionModel> {
    if is_hex_encoding(contract_address) && is_hex_encoding(function_payload) {
        Some(
            TransactionModel::ReadOnlyCall {
                contract_address: decode_hex(contract_address),
                function_selector: Seq::empty(),
                arguments: decode_hex(function_payload),
            },
        )
    } else {
        None
    }
}

/// The key and the places of the toolkit's files.
pub struct L1XVmTxnExecutorInternal {
    pub cfg_ws_home: String,
    pub cfg_cli_scripts_base: String,
    pub private_key: String,
}

/// A call of one command under one set of settings.
pub struct L1XVmTxnExecutor<'a> {
    pub txn_cmd: &'a L1XVmSubTxnCmd,
    pub internal_installer: &'a L1XVmTxnExecutorInternal,
}

impl L1XVmTxnExecutorInternal {
    /// Takes the settings and checks the key: hex text that holds a valid
    /// secret key.
    pub fn new(cfg_ws_home: String, cfg_cli_scripts_base: String, private_key: String) -> (settings:
        Result<Self, SubmitRequestError>)
        ensures
            match settings {
                Ok(s) => {
                    &&& s.cfg_ws_home == cfg_ws_home
                    &&& s.cfg_cli_scripts_base == cfg_cli_scripts_base
                    &&& s.private_key == private_key
                    &&& key_of(private_key@) is Ok
                },
                Err(error) => key_of(private_key@) == Err::<Seq<u8>, SubmitRequestError>(error),
            },
    {
        match SigningKey::from_hex(private_key.as_str()) {
            Ok(_) => Ok(L1XVmTxnExecutorInternal { cfg_ws_home, cfg_cli_scripts_base, private_key }),
            Err(error) => Err(error),
        }
    }
}

/// Where a call stands.
#[derive(Debug, PartialEq)]
pub enum SubTxnState {
    Idle,
    /// The registry was asked for, to find the contract's address.
    ResolveAddress,
    /// The call is on its way as a transaction.
    InFlight { stage: TxnStage },
    /// The read-only call was sent.
    AwaitingReadOnly,
    Done { response: L1XVmTxnResponse },
    Failed { kind: ErrorKind, error: L1XVmSubTxnError },
}

pub enum SubTxnStateModel {
    Idle,
    ResolveAddress,
    InFlight { stage: TxnStageModel },
    AwaitingReadOnly,
    Done { response: TxnResponseModel },
    Failed { kind: ErrorKind, error: SubTxnErrorModel },
}

impl View for SubTxnState {
    type V = SubTxnStateModel;

    open spec fn view(&self) -> SubTxnStateModel {
        match self {
            SubTxnState::Idle => SubTxnStateModel::Idle,
            SubTxnState::ResolveAddress => SubTxnStateModel::ResolveAddress,
            SubTxnState::InFlight { stage } => SubTxnStateModel::InFlight { stage: stage@ },
            SubTxnState::AwaitingReadOnly => SubTxnStateModel::AwaitingReadOnly,
            SubTxnState::Done { response } => SubTxnStateModel::Done { response: response@ },
            SubTxnState::Failed { kind, error } => SubTxnStateModel::Failed {
                kind: *kind,
                error: error@,
            },
        }
    }
}

/// What the caller reports back.
#[derive(Debug)]
pub enum SubTxnEvent {
    Start,
    RegistryLoaded(L1XVMContractAddressRegistry),
    RegistryUnavailable,
    Txn(TxnEvent),
    /// The node's answer to a read-only call.
    ReadOnlyResponse { status: i32, result: Vec<u8> },
    /// The node answered a read-only call without a result.
    ReadOnlyEmpty,
    ReadOnlyFailed(String),
}

pub enum SubTxnEventModel {
    Start,
    RegistryLoaded(RegistryModel),
    RegistryUnavailable,
    Txn(TxnEventModel),
    ReadOnlyResponse { status: i32, result: Seq<u8> },
    ReadOnlyEmpty,
    ReadOnlyFailed(Seq<char>),
}

impl View for SubTxnEvent {
    type V = SubTxnEventModel;

    open spec fn view(&self) -> SubTxnEventModel {
        match self {
            SubTxnEvent::Start => SubTxnEventModel::Start,
            SubTxnEvent::RegistryLoaded(registry) => SubTxnEventModel::RegistryLoaded(registry@),
            SubTxnEvent::RegistryUnavailable => SubTxnEventModel::RegistryUnavailable,
            SubTxnEvent::Txn(event) => SubTxnEventModel::Txn(event@),
            SubTxnEvent::ReadOnlyResponse { status, result } => SubTxnEventModel::ReadOnlyResponse {
                status: *status,
                result: result@,
            },
            SubTxnEvent::ReadOnlyEmpty => SubTxnEventModel::ReadOnlyEmpty,
            SubTxnEvent::ReadOnlyFailed(detail) => SubTxnEventModel::ReadOnlyFailed(detail@),
        }
    }
}

/// What the caller is to do next.
#[derive(Debug, PartialEq)]
pub enum SubTxnAction {
    LoadRegistry,
    Txn(TxnAction),
    /// Send this call to the node to be simulated. No nonce and no signature
    /// are involved.
    ReadOnlyCall(TransactionType),
    Finish,
    Unexpected,
}

pub enum SubTxnActionModel {
    LoadRegistry,
    Txn(TxnActionModel),
    ReadOnlyCall(TransactionModel),
    Finish,
    Unexpected,
}

impl View for SubTxnAction {
    type V = SubTxnActionModel;

    open spec fn view(&self) -> SubTxnActionModel {
        match self {
            SubTxnAction::LoadRegistry => SubTxnActionModel::LoadRegistry,
            SubTxnAction::Txn(action) => SubTxnActionModel::Txn(action@),
            SubTxnAction::ReadOnlyCall(call) => SubTxnActionModel::ReadOnlyCall(call@),
            SubTxnAction::Finish => SubTxnActionModel::Finish,
            SubTxnAction::Unexpected => SubTxnActionModel::Unexpected,
        }
    }
}

/// A failed run.
pub open spec fn sub_txn_failed(kind: ErrorKind, error: SubTxnErrorModel) -> (
    SubTxnStateModel,
    SubTxnActionModel,
) {
    (SubTxnStateModel::Failed { kind, error }, SubTxnActionModel::Finish)
}

/// The error for a failure of the transaction in flight, by the stage that
/// it was in.
pub open spec fn stage_error(
    stage: TxnStageModel,
    kind: ErrorKind,
    message: Seq<char>,
) -> SubTxnErrorModel {
    match stage {
        TxnStageModel::AwaitingNonce { .. } => if kind == ErrorKind::Rpc {
            SubTxnErrorModel::InValidNonceError(message)
        } else {
            SubTxnErrorModel::RequestCreationError(message)
        },
        TxnStageModel::AwaitingSignature { .. } => SubTxnErrorModel::RequestCreationError(message),
        TxnStageModel::AwaitingSubmission => SubTxnErrorModel::PostJsonRpcError(message),
        TxnStageModel::Confirming { .. } => SubTxnErrorModel::JsonParseError(message),
    }
}

/// The state and action for the first step of a transaction.
pub open spec fn started(step: TxnStepModel) -> (SubTxnStateModel, SubTxnActionModel) {
    match step {
        TxnStepModel::Next { stage, action } => (
            SubTxnStateModel::InFlight { stage },
            SubTxnActionModel::Txn(action),
        ),
        TxnStepModel::Failed { kind, message } => sub_txn_failed(
            kind,
            SubTxnErrorModel::RequestCreationError(message),
        ),
        _ => sub_txn_failed(ErrorKind::Rpc, SubTxnErrorModel::RequestCreationError(Seq::empty())),
    }
}

/// Starts the call at `contract_address` as a transaction. Address and
/// payload are brought to bare form first.
pub open spec fn submit_txn_spec(
    private_key: Seq<char>,
    cmd: SubTxnCmdModel,
    contract_address: Seq<char>,
) -> (SubTxnStateModel, SubTxnActionModel) {
    match function_call_spec(normalize(contract_address), normalize(cmd.function_payload)) {
        None => sub_txn_failed(
            ErrorKind::Encoding,
            SubTxnErrorModel::HexParseError("Sub Txn Failed: Hex File Parse Error"@),
        ),
        Some(call) => started(begin_spec(private_key, call)),
    }
}

/// Starts the call at `contract_address` as a read-only call.
pub open spec fn read_only_call_start_spec(cmd: SubTxnCmdModel, contract_address: Seq<char>) -> (
    SubTxnStateModel,
    SubTxnActionModel,
) {
    match read_only_call_spec(normalize(contract_address), normalize(cmd.function_payload)) {
        None => sub_txn_failed(
            ErrorKind::Encoding,
            SubTxnErrorModel::HexParseError("Read-Only Txn Failed: Hex File Parse Error"@),
        ),
        Some(call) => (SubTxnStateModel::AwaitingReadOnly, SubTxnActionModel::ReadOnlyCall(call)),
    }
}

/// The address that the registry holds for the contract: for eBPF the
/// instance's, for EVM the deployment's.
pub open spec fn contract_address_of(cmd: SubTxnCmdModel, registry: RegistryModel) -> Option<
    Seq<char>,
> {
    match cmd.vm_type {
        L1XVMType::L1xVmEbpf => match lookup_ebpf(
            registry,
            cmd.artifact_id,
            Some(cmd.contract_id),
        ) {
            Ok(address) => Some(address),
            Err(_) => None,
        },
        L1XVMType::L1xVmEvm => match lookup_evm(registry, cmd.artifact_id) {
            Ok(address) => Some(address),
            Err(_) => None,
        },
    }
}

/// The failure of a call to a contract that the registry does not know.
pub open spec fn unknown_contract() -> (SubTxnStateModel, SubTxnActionModel) {
    sub_txn_failed(
        ErrorKind::UnknownContract,
        SubTxnErrorModel::ContractDeploymentError(
            "L1X Submit TransactionFailed: Unknown Contract Address"@,
        ),
    )
}

/// One step of a call.
pub open spec fn sub_txn_step(
    private_key: Seq<char>,
    cmd: SubTxnCmdModel,
    state: SubTxnStateModel,
    event: SubTxnEventModel,
) -> (SubTxnStateModel, SubTxnActionModel) {
    match (state, event) {
        (SubTxnStateModel::Done { .. }, _) | (SubTxnStateModel::Failed { .. }, _) => (
            state,
            SubTxnActionModel::Finish,
        ),
        (SubTxnStateModel::Idle, SubTxnEventModel::Start) => (
            SubTxnStateModel::ResolveAddress,
            SubTxnActionModel::LoadRegistry,
        ),
        (SubTxnStateModel::ResolveAddress, SubTxnEventModel::RegistryLoaded(registry)) => {
            match contract_address_of(cmd, registry) {
                None => unknown_contract(),
                Some(address) => match cmd.call_type {
                    L1XCallType::L1xCallTypeSubTxn => submit_txn_spec(private_key, cmd, address),
                    L1XCallType::L1xCallTypeReadOnly => read_only_call_start_spec(cmd, address),
                },
            }
        },
        (SubTxnStateModel::ResolveAddress, SubTxnEventModel::RegistryUnavailable) => {
            unknown_contract()
        },
        (SubTxnStateModel::InFlight { stage }, SubTxnEventModel::Txn(event)) => {
            match advance_spec(private_key, cmd.fee_limit, stage, event) {
                TxnStepModel::Next { stage, action } => (
                    SubTxnStateModel::InFlight { stage },
                    SubTxnActionModel::Txn(action),
                ),
                TxnStepModel::Unexpected { stage } => (
                    SubTxnStateModel::InFlight { stage },
                    SubTxnActionModel::Unexpected,
                ),
                TxnStepModel::Failed { kind, message } => sub_txn_failed(
                    kind,
                    stage_error(stage, kind, message),
                ),
                TxnStepModel::Confirmed { events, .. } => match first_event_hex_spec(events) {
                    Some(message) => (
                        SubTxnStateModel::Done {
                            response: TxnResponseModel { status: 0, message },
                        },
                        SubTxnActionModel::Finish,
                    ),
                    None => sub_txn_failed(
                        ErrorKind::Confirmation,
                        SubTxnErrorModel::JsonParseError("Sub Txn Resp Failed: no events"@),
                    ),
                },
            }
        },
        (
            SubTxnStateModel::AwaitingReadOnly,
            SubTxnEventModel::ReadOnlyResponse { status, result },
        ) => (
            SubTxnStateModel::Done { response: read_only_status(status, result) },
            SubTxnActionModel::Finish,
        ),
        (SubTxnStateModel::AwaitingReadOnly, SubTxnEventModel::ReadOnlyEmpty) => (
            SubTxnStateModel::Done {
                response: TxnResponseModel { status: 1, message: invalid_response() },
            },
            SubTxnActionModel::Finish,
        ),
        (SubTxnStateModel::AwaitingReadOnly, SubTxnEventModel::ReadOnlyFailed(detail)) => {
            sub_txn_failed(ErrorKind::Rpc, SubTxnErrorModel::PostJsonRpcError(detail))
        },
        (state, _) => (state, SubTxnActionModel::Unexpected),
    }
}

/// The stage of a transaction, without what it holds.
#[derive(Clone, Copy, PartialEq, Eq, Structural)]
enum StageTag {
    Nonce,
    Signature,
    Submission,
    Confirming,
}

spec fn tag_of(stage: TxnStageModel) -> StageTag {
    match stage {
        TxnStageModel::AwaitingNonce { .. } => StageTag::Nonce,
        TxnStageModel::AwaitingSignature { .. } => StageTag::Signature,
        TxnStageModel::AwaitingSubmission => StageTag::Submission,
        TxnStageModel::Confirming { .. } => StageTag::Confirming,
    }
}

fn stage_tag(stage: &TxnStage) -> (tag: StageTag)
    ensures
        tag == tag_of(stage@),
{
    match stage {
        TxnStage::AwaitingNonce { .. } => StageTag::Nonce,
        TxnStage::AwaitingSignature { .. } => StageTag::Signature,
        TxnStage::AwaitingSubmission => StageTag::Submission,
        TxnStage::Confirming { .. } => StageTag::Confirming,
    }
}

/// A failed run.
fn fail(kind: ErrorKind, error: L1XVmSubTxnError) -> (out: (SubTxnState, SubTxnAction))
    ensures
        (out.0@, out.1@) == sub_txn_failed(kind, error@),
{
    (SubTxnState::Failed { kind, error }, SubTxnAction::Finish)
}

/// The state and action for the first step of a transaction.
fn start(step: TxnStep) -> (out: (SubTxnState, SubTxnAction))
    ensures
        (out.0@, out.1@) == started(step@),
{
    match step {
        TxnStep::Next { stage, action } => (SubTxnState::InFlight { stage }, SubTxnAction::Txn(action)),
        TxnStep::Failed { kind, message } => fail(
            kind,
            L1XVmSubTxnError::RequestCreationError(message),
        ),
        _ => fail(ErrorKind::Rpc, L1XVmSubTxnError::RequestCreationError(String::new())),
    }
}

/// The failure of a call to a contract that the registry does not know.
fn unknown() -> (out: (SubTxnState, SubTxnAction))
    ensures
        (out.0@, out.1@) == unknown_contract(),
{
    fail(
        ErrorKind::UnknownContract,
        L1XVmSubTxnError::ContractDeploymentError(
            "L1X Submit TransactionFailed: Unknown Contract Address".to_owned(),
        ),
    )
}

pub open spec fn call_view(outcome: Result<TransactionType, L1XVmSubTxnError>) -> Option<
    TransactionModel,
> {
    match outcome {
        Ok(call) => Some(call@),
        Err(_) => None,
    }
}

/// The request to submit `txn` with the nonce that follows `nonce`, or why
/// there is none.
pub open spec fn submit_txn_request_spec(
    private_key: Seq<char>,
    fee_limit: Balance,
    nonce: Nonce,
    txn: TransactionModel,
) -> Result<SubmitTxnRequestModel, SubTxnErrorModel> {
    if nonce == u128::MAX {
        Err(SubTxnErrorModel::InValidNonceError("Sub Txn Failed: the nonce cannot be incremented"@))
    } else {
        match submit_request(txn, private_key, fee_limit, (nonce + 1) as u128) {
            Ok(request) => Ok(request),
            Err(_) => Err(
                SubTxnErrorModel::RequestCreationError(
                    "Sub Txn Failed: Unable to get_submit_txn_req"@,
                ),
            ),
        }
    }
}

pub open spec fn request_view(outcome: Result<SubmitTxnRequest, L1XVmSubTxnError>) -> Result<
    SubmitTxnRequestModel,
    SubTxnErrorModel,
> {
    match outcome {
        Ok(request) => Ok(request@),
        Err(error) => Err(error@),
    }
}

impl<'a> L1XVmTxnExecutor<'a> {
    pub fn new(txn_cmd: &'a L1XVmSubTxnCmd, internal_installer: &'a L1XVmTxnExecutorInternal) -> (
        executor: Self)
        ensures
            executor.txn_cmd == txn_cmd,
            executor.internal_installer == internal_installer,
    {
        L1XVmTxnExecutor { txn_cmd, internal_installer }
    }

    /// Brings an address or a payload to bare form.
    pub fn clean_string(address_to_clean: &str) -> (clean: String)
        ensures
            clean@ == normalize(address_to_clean@),
    {
        clean_address_string(address_to_clean)
    }

    /// Builds the call of a contract as a transaction, from address and
    /// payload in bare hex. Anything else is refused as a hex parse error.
    pub fn create_txn_function_call(contract_address: &str, function_payload: &str) -> (call:
        Result<TransactionType, L1XVmSubTxnError>)
        ensures
            call_view(call) == function_call_spec(contract_address@, function_payload@),
            call matches Err(error) ==> error@ == SubTxnErrorModel::HexParseError(
                "Sub Txn Failed: Hex File Parse Error"@,
            ),
    {
        let contract_instance_address = match decode(contract_address) {
            Ok(bytes) => bytes,
            Err(_) => {
                return Err(
                    L1XVmSubTxnError::HexParseError(
                        "Sub Txn Failed: Hex File Parse Error".to_owned(),
                    ),
                );
            },
        };
        let arguments = match decode(function_payload) {
            Ok(bytes) => bytes,
            Err(_) => {
                return Err(
                    L1XVmSubTxnError::HexParseError(
                        "Sub Txn Failed: Hex File Parse Error".to_owned(),
                    ),
                );
            },
        };
        Ok(
            TransactionType::FunctionCall {
                contract_address: contract_instance_address,
                function_selector: Vec::new(),
                arguments,
            },
        )
    }

    /// Builds the read-only call of a contract, from address and payload in
    /// bare hex.
    pub fn create_ronly_txn_function_call(contract_address: &str, function_payload: &str) -> (call:
        Result<TransactionType, L1XVmSubTxnError>)
        ensures
            call_view(call) == read_only_call_spec(contract_address@, function_payload@),
            call matches Err(error) ==> error@ == SubTxnErrorModel::HexParseError(
                "Read-Only Txn Failed: Hex File Parse Error"@,
            ),
    {
        let contract_instance_address = match decode(contract_address) {
            Ok(bytes) => bytes,
            Err(_) => {
                return Err(
                    L1XVmSubTxnError::HexParseError(
                        "Read-Only Txn Failed: Hex File Parse Error".to_owned(),
                    ),
                );
            },
        };
        let arguments = match decode(function_payload) {
            Ok(bytes) => bytes,
            Err(_) => {
                return Err(
                    L1XVmSubTxnError::HexParseError(
                        "Read-Only Txn Failed: Hex File Parse Error".to_owned(),
                    ),
                );
            },
        };
        Ok(
            TransactionType::ReadOnlyCall {
                contract_address: contract_instance_address,
                function_selector: Vec::new(),
                arguments,
            },
        )
    }

    /// Builds the request to submit `txn_function_call`. `nonce` is the one
    /// that the chain last saw: the request carries the next one.
    pub fn create_submit_txn_request(
        private_key: &str,
        fee_limit: Balance,
        nonce: Nonce,
        txn_function_call: TransactionType,
    ) -> (request: Result<SubmitTxnRequest, L1XVmSubTxnError>)
        ensures
            request_view(request) == submit_txn_request_spec(
                private_key@,
                fee_limit,
                nonce,
                txn_function_call@,
            ),
    {
        if nonce == u128::MAX {
            return Err(
                L1XVmSubTxnError::InValidNonceError(
                    "Sub Txn Failed: the nonce cannot be incremented".to_owned(),
                ),
            );
        }
        match get_submit_txn_req(txn_function_call, private_key, fee_limit, nonce + 1) {
            Ok(request) => Ok(request),
            Err(_) => Err(
                L1XVmSubTxnError::RequestCreationError(
                    "Sub Txn Failed: Unable to get_submit_txn_req".to_owned(),
                ),
            ),
        }
    }

    /// The status object for the result of a call: success, with the result
    /// as hex.
    pub fn transaction_status(txn_response_message: &[u8]) -> (response: L1XVmTxnResponse)
        ensures
            response@ == status_of(txn_response_message@),
    {
        L1XVmTxnResponse { status: 0, message: encode(txn_response_message) }
    }

    /// The status object for what a read-only call returned.
    pub fn read_only_transaction_status(status: i32, result: &[u8]) -> (response: L1XVmTxnResponse)
        ensures
            response@ == read_only_status(status, result@),
    {
        if status == 0 {
            Self::transaction_status(result)
        } else {
            L1XVmTxnResponse { status: 1, message: "Invalid response".to_owned() }
        }
    }

    /// Starts the call at `contract_address` as a transaction: builds it and
    /// asks for the nonce.
    pub fn l1x_vm_submit_txn(&self, contract_address: &str) -> (out: (SubTxnState, SubTxnAction))
        ensures
            (out.0@, out.1@) == submit_txn_spec(
                self.internal_installer.private_key@,
                self.txn_cmd@,
                contract_address@,
            ),
    {
        let clean_hex_contract_address = Self::clean_string(contract_address);
        let clean_hex_function_payload = Self::clean_string(self.txn_cmd.function_payload.as_str());
        match Self::create_txn_function_call(
            clean_hex_contract_address.as_str(),
            clean_hex_function_payload.as_str(),
        ) {
            Err(error) => fail(ErrorKind::Encoding, error),
            Ok(txn_function_call) => start(
                begin(self.internal_installer.private_key.as_str(), txn_function_call),
            ),
        }
    }

    /// Starts the call at `contract_address` as a read-only call.
    pub fn l1x_vm_read_only_call(&self, contract_address: &str) -> (out: (
        SubTxnState,
        SubTxnAction,
    ))
        ensures
            (out.0@, out.1@) == read_only_call_start_spec(self.txn_cmd@, contract_address@),
    {
        let clean_hex_contract_address = Self::clean_string(contract_address);
        let clean_hex_function_payload = Self::clean_string(self.txn_cmd.function_payload.as_str());
        match Self::create_ronly_txn_function_call(
            clean_hex_contract_address.as_str(),
            clean_hex_function_payload.as_str(),
        ) {
            Err(error) => fail(ErrorKind::Encoding, error),
            Ok(ronly_function_call) => (
                SubTxnState::AwaitingReadOnly,
                SubTxnAction::ReadOnlyCall(ronly_function_call),
            ),
        }
    }
}

/// The error for a failure of the transaction in flight.
fn stage_failure(tag: StageTag, kind: ErrorKind, message: String) -> (error: L1XVmSubTxnError)
    ensures
        forall|stage: TxnStageModel|
            tag_of(stage) == tag ==> error@ == #[trigger] stage_error(stage, kind, message@),
{
    match tag {
        StageTag::Nonce => match kind {
            ErrorKind::Rpc => L1XVmSubTxnError::InValidNonceError(message),
            _ => L1XVmSubTxnError::RequestCreationError(message),
        },
        StageTag::Signature => L1XVmSubTxnError::RequestCreationError(message),
        StageTag::Submission => L1XVmSubTxnError::PostJsonRpcError(message),
        StageTag::Confirming => L1XVmSubTxnError::JsonParseError(message),
    }
}

impl L1XVmSubTxnCmd {
    /// One step of the call.
    pub fn exec(
        &self,
        settings: &L1XVmTxnExecutorInternal,
        state: SubTxnState,
        event: SubTxnEvent,
    ) -> (out: (SubTxnState, SubTxnAction))
        ensures
            (out.0@, out.1@) == sub_txn_step(settings.private_key@, self@, state@, event@),
    {
        self.l1x_vm_sub_txn(settings, state, event)
    }

    /// The address that the registry holds for the contract.
    fn contract_address(&self, registry: &L1XVMContractAddressRegistry) -> (address: Option<String>)
        ensures
            address.deep_view() == contract_address_of(self@, registry@),
    {
        let artifact_deploy_status = match self.vm_type {
            L1XVMType::L1xVmEbpf => get_toolkit_ebpf_contract_address_for(
                registry,
                self.artifact_id.as_str(),
                Some(self.contract_id.as_str()),
            ),
            L1XVMType::L1xVmEvm => get_toolkit_evm_contract_address_for(
                registry,
                self.artifact_id.as_str(),
                None,
            ),
        };
        match artifact_deploy_status {
            Ok(address) => Some(address),
            Err(_) => None,
        }
    }

    /// One step of the call: resolve the contract's address, then submit a
    /// transaction or make a read-only call.
    pub fn l1x_vm_sub_txn(
        &self,
        settings: &L1XVmTxnExecutorInternal,
        state: SubTxnState,
        event: SubTxnEvent,
    ) -> (out: (SubTxnState, SubTxnAction))
        ensures
            (out.0@, out.1@) == sub_txn_step(settings.private_key@, self@, state@, event@),
    {
        match state {
            SubTxnState::Done { response } => (SubTxnState::Done { response }, SubTxnAction::Finish),
            SubTxnState::Failed { kind, error } => (
                SubTxnState::Failed { kind, error },
                SubTxnAction::Finish,
            ),
            SubTxnState::Idle => match event {
                SubTxnEvent::Start => (SubTxnState::ResolveAddress, SubTxnAction::LoadRegistry),
                _ => (SubTxnState::Idle, SubTxnAction::Unexpected),
            },
            SubTxnState::ResolveAddress => match event {
                SubTxnEvent::RegistryLoaded(registry) => match self.contract_address(&registry) {
                    None => unknown(),
                    Some(address) => {
                        let txn_executor = L1XVmTxnExecutor::new(self, settings);
                        match self.call_type {
                            L1XCallType::L1xCallTypeSubTxn => txn_executor.l1x_vm_submit_txn(
                                address.as_str(),
                            ),
                            L1XCallType::L1xCallTypeReadOnly => txn_executor.l1x_vm_read_only_call(
                                address.as_str(),
                            ),
                        }
                    },
                },
                SubTxnEvent::RegistryUnavailable => unknown(),
                _ => (SubTxnState::ResolveAddress, SubTxnAction::Unexpected),
            },
            SubTxnState::InFlight { stage } => match event {
                SubTxnEvent::Txn(event) => {
                    let tag = stage_tag(&stage);
                    match advance(settings.private_key.as_str(), self.fee_limit, stage, event) {
                        TxnStep::Next { stage, action } => (
                            SubTxnState::InFlight { stage },
                            SubTxnAction::Txn(action),
                        ),
                        TxnStep::Unexpected { stage } => (
                            SubTxnState::InFlight { stage },
                            SubTxnAction::Unexpected,
                        ),
                        TxnStep::Failed { kind, message } => fail(
                            kind,
                            stage_failure(tag, kind, message),
                        ),
                        TxnStep::Confirmed { response, events } => match first_event_hex(&events) {
                            Some(message) => (
                                SubTxnState::Done {
                                    response: L1XVmTxnResponse { status: 0, message },
                                },
                                SubTxnAction::Finish,
                            ),
                            None => fail(
                                ErrorKind::Confirmation,
                                L1XVmSubTxnError::JsonParseError(
                                    "Sub Txn Resp Failed: no events".to_owned(),
                                ),
                            ),
                        },
                    }
                },
                _ => (SubTxnState::InFlight { stage }, SubTxnAction::Unexpected),
            },
            SubTxnState::AwaitingReadOnly => match event {
                SubTxnEvent::ReadOnlyResponse { status, result } => (
                    SubTxnState::Done {
                        response: L1XVmTxnExecutor::read_only_transaction_status(
                            status,
                            result.as_slice(),
                        ),
                    },
                    SubTxnAction::Finish,
                ),
                SubTxnEvent::ReadOnlyEmpty => (
                    SubTxnState::Done {
                        response: L1XVmTxnResponse {
                            status: 1,
                            message: "Invalid response".to_owned(),
                        },
                    },
                    SubTxnAction::Finish,
                ),
                SubTxnEvent::ReadOnlyFailed(detail) => fail(
                    ErrorKind::Rpc,
                    L1XVmSubTxnError::PostJsonRpcError(detail),
                ),
                _ => (SubTxnState::AwaitingReadOnly, SubTxnAction::Unexpected),
            },
        }
    }
}

/// A read-only call involves no transaction: from the moment the address is
/// resolved, no step asks for a nonce, a signature, a submission or events.
pub proof fn lemma_read_only_is_no_transaction(
    private_key: Seq<char>,
    cmd: SubTxnCmdModel,
    state: SubTxnStateModel,
    event: SubTxnEventModel,
)
    requires
        cmd.call_type == L1XCallType::L1xCallTypeReadOnly,
        state is ResolveAddress || state is AwaitingReadOnly,
    ensures
        !(sub_txn_step(private_key, cmd, state, event).1 is Txn),
        !(sub_txn_step(private_key, cmd, state, event).0 is InFlight),
{
}

/// A failed read-only call reports the sentinel and never the result: with
/// a status other than 0, the message is `Invalid response` whatever the
/// result bytes are.
pub proof fn lemma_failed_read_only_hides_result(status: i32, result: Seq<u8>, other: Seq<u8>)
    requires
        status != 0,
    ensures
        read_only_status(status, result).message == invalid_response(),
        read_only_status(status, result).status != 0,
        read_only_status(status, result) == read_only_status(status, other),
{
}

/// The order of a call is fixed, as that of an install: events are polled
/// only for an accepted submission, after the delay, under its hash; a run is
/// over exactly when it is `Done` or `Failed`; and a call to a contract that
/// the registry does not know fails before anything is sent.
pub proof fn lemma_sub_txn_order(
    private_key: Seq<char>,
    cmd: SubTxnCmdModel,
    state: SubTxnStateModel,
    event: SubTxnEventModel,
)
    ensures
        ({
            let (next, action) = sub_txn_step(private_key, cmd, state, event);
            &&& (action matches SubTxnActionModel::Txn(TxnActionModel::Submit(_)) ==> (
            state matches SubTxnStateModel::InFlight { stage } && (stage is AwaitingNonce || stage
                is AwaitingSignature)))
            &&& (action matches SubTxnActionModel::Txn(
                TxnActionModel::GetEvents { tx_hash, timestamp },
            ) ==> {
                &&& state matches SubTxnStateModel::InFlight {
                    stage: TxnStageModel::Confirming { response, delay_elapsed: false },
                }
                &&& event == SubTxnEventModel::Txn(TxnEventModel::DelayElapsed)
                &&& tx_hash == response.hash
                &&& timestamp == 0
            })
            &&& action == SubTxnActionModel::Finish <==> (next is Done || next is Failed)
            &&& action == SubTxnActionModel::Unexpected ==> next == state
            &&& (state is ResolveAddress && (event matches SubTxnEventModel::RegistryLoaded(
                registry,
            ) && contract_address_of(cmd, registry) is None)) ==> (next, action)
                == unknown_contract()
        }),
{
}

} // verus!
