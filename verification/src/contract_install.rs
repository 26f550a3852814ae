//! Installing a contract: deploy the artifact, and for an eBPF contract
//! initialise an instance of it.
//!
//! The install is a state machine. The caller starts it, does what each
//! action asks (read a file, talk to the node, wait, write the registry) and
//! reports back; the machine decides what follows. A run goes
//!
//! ```text
//! Idle -> ResolveExisting -> AwaitingArtifact -> InFlight(Deploy) -> PersistingRegistry
//!                        \-> (cached)                                     |
//!                             evm: Done        ebpf: InFlight(Init) <-----+--> evm: Done
//!                                                    -> PersistingRegistry -> Done
//! ```
//!
//! and ends in `Done`, with the address that was resolved, or in `Failed`,
//! with the kind of failure. With `force` unset, an artifact that the registry
//! knows is not deployed again. The registry is written only after a
//! transaction was submitted, its events were polled and an address was
//! resolved from them; a run that fails before that writes nothing.
//!
//! The registry file is read, changed and written as a whole, without a lock:
//! of two installs that run at once on one file, the later write wins.

use crate::error::ErrorKind;
use crate::events::{
    ebpf_address_spec, ebpf_event_address, evm_event_address, evm_events_spec, MalformedEvent,
};
use crate::hexcodec::{decode, decode_hex, is_hex_encoding};
use crate::pipeline::{
    advance, advance_spec, begin, begin_spec, SubmitResponseModel, SubmitTransactionResponse,
    TxnAction, TxnActionModel, TxnEvent, TxnEventModel, TxnStage, TxnStageModel, TxnStep,
    TxnStepModel,
};
use crate::signer::{SigningKey, SubmitRequestError};
use crate::text::{clean_address_string, normalize};
use crate::toolkit_config::{
    apply_update, get_toolkit_ebpf_contract_address_for, get_toolkit_evm_contract_address_for,
    lookup_ebpf, lookup_evm, update_toolkit_contract_address_registry,
    L1XVMContractAddressRegistry, L1XVMContractAddressUpdateType, RegistryModel, UpdateModel,
};
use crate::transaction::{AccessType, Balance, ContractType, TransactionModel, TransactionType};
use vstd::prelude::*;

verus! {

/// Why an install failed, in words.
#[derive(Debug, PartialEq)]
pub struct L1XVmContractInstallError(pub String);

impl L1XVmContractInstallError {
    pub fn new(message: String) -> (error: Self)
        ensures
            error.0 == message,
    {
        L1XVmContractInstallError(message)
    }

    /// The message.
    pub fn message(&self) -> (message: &String)
        ensures
            message == self.0,
    {
        &self.0
    }
}

/// The virtual machine to install on.
#[derive(Clone, Copy, Debug, PartialEq, Eq, Structural)]
pub enum L1XVMType {
    L1xVmEbpf,
    L1xVmEvm,
}

impl L1XVMType {
    /// The variant's name.
    pub fn name(&self) -> (name: &'static str)
        ensures
            name@ == match *self {
                L1XVMType::L1xVmEbpf => "L1xVmEbpf"@,
                L1XVMType::L1xVmEvm => "L1xVmEvm"@,
            },
    {
        match self {
            L1XVMType::L1xVmEbpf => "L1xVmEbpf",
            L1XVMType::L1xVmEvm => "L1xVmEvm",
        }
    }
}

/// What to install, and how.
#[derive(Clone, Debug)]
pub struct L1XVmInstallContractCmd {
    pub vm_type: L1XVMType,
    pub force: bool,
    pub contract_id: String,
    pub artifact_id: String,
    pub owner: String,
    pub fee_limit: Balance,
    pub req_id: u64,
}

pub struct InstallCmdModel {
    pub vm_type: L1XVMType,
    pub force: bool,
    pub contract_id: Seq<char>,
    pub artifact_id: Seq<char>,
    pub owner: Seq<char>,
    pub fee_limit: Balance,
    pub req_id: u64,
}

impl View for L1XVmInstallContractCmd {
    type V = InstallCmdModel;

    open spec fn view(&self) -> InstallCmdModel {
        InstallCmdModel {
            vm_type: self.vm_type,
            force: self.force,
            contract_id: self.contract_id@,
            artifact_id: self.artifact_id@,
            owner: self.owner@,
            fee_limit: self.fee_limit,
            req_id: self.req_id,
        }
    }
}

/// Where the toolkit's files are, and the owner's key.
pub struct L1XVmContractInstallInternal {
    pub cfg_ws_home: String,
    pub cfg_cli_scripts_base: String,
    pub private_key: String,
    pub secret_key: SigningKey,
}

pub struct InstallInternalModel {
    pub cfg_ws_home: Seq<char>,
    pub cfg_cli_scripts_base: Seq<char>,
    pub private_key: Seq<char>,
}

impl View for L1XVmContractInstallInternal {
    type V = InstallInternalModel;

    open spec fn view(&self) -> InstallInternalModel {
        InstallInternalModel {
            cfg_ws_home: self.cfg_ws_home@,
            cfg_cli_scripts_base: self.cfg_cli_scripts_base@,
            private_key: self.private_key@,
        }
    }
}

impl L1XVmContractInstallInternal {
    /// Takes the settings and checks the key: hex text that holds a valid
    /// secret key.
    pub fn new(cfg_ws_home: String, cfg_cli_scripts_base: String, private_key: String) -> (settings:
        Result<Self, SubmitRequestError>)
        ensures
            match settings {
                Ok(s) => {
                    &&& s.cfg_ws_home == cfg_ws_home
                    &&& s.cfg_cli_scripts_base == cfg_cli_scripts_base
                    &&& s.private_key == private_key
                    &&& crate::signer::key_of(private_key@) == Ok::<Seq<u8>, SubmitRequestError>(
                        s.secret_key@,
                    )
                },
                Err(error) => crate::signer::key_of(private_key@) == Err::<
                    Seq<u8>,
                    SubmitRequestError,
                >(error),
            },
    {
        match SigningKey::from_hex(private_key.as_str()) {
            Ok(secret_key) => Ok(
                L1XVmContractInstallInternal {
                    cfg_ws_home,
                    cfg_cli_scripts_base,
                    private_key,
                    secret_key,
                },
            ),
            Err(error) => Err(error),
        }
    }

    /// Moves the transaction in flight on by one report of the caller.
    pub fn submit_transaction(
        &self,
        install_cmd: &L1XVmInstallContractCmd,
        stage: TxnStage,
        event: TxnEvent,
    ) -> (step: TxnStep)
        ensures
            step@ == advance_spec(self@.private_key, install_cmd@.fee_limit, stage@, event@),
    {
        advance(self.private_key.as_str(), install_cmd.fee_limit, stage, event)
    }
}

/// Which of the two transactions of an install is under way.
#[derive(Clone, Copy, Debug, PartialEq, Eq, Structural)]
pub enum InstallPhase {
    Deploy,
    Init,
}

/// Where an install stands.
#[derive(Debug, PartialEq)]
pub enum InstallState {
    /// Not started.
    Idle,
    /// The registry was asked for, to see whether the artifact is known.
    ResolveExisting,
    /// The artifact's file was asked for, to deploy it.
    AwaitingArtifact,
    /// A transaction is on its way: deploying or initialising, then
    /// confirming.
    InFlight { phase: InstallPhase, stage: TxnStage },
    /// An address was resolved and is being recorded: first the registry is
    /// read, then the changed registry is written.
    PersistingRegistry { phase: InstallPhase, response_hash: String, address: String, stored: bool },
    /// The install succeeded. The address is in bare form.
    Done { address: String },
    /// The install failed.
    Failed { kind: ErrorKind, error: L1XVmContractInstallError },
}

pub enum InstallStateModel {
    Idle,
    ResolveExisting,
    AwaitingArtifact,
    InFlight { phase: InstallPhase, stage: TxnStageModel },
    PersistingRegistry {
        phase: InstallPhase,
        response_hash: Seq<char>,
        address: Seq<char>,
        stored: bool,
    },
    Done { address: Seq<char> },
    Failed { kind: ErrorKind, message: Seq<char> },
}

impl View for InstallState {
    type V = InstallStateModel;

    open spec fn view(&self) -> InstallStateModel {
        match self {
            InstallState::Idle => InstallStateModel::Idle,
            InstallState::ResolveExisting => InstallStateModel::ResolveExisting,
            InstallState::AwaitingArtifact => InstallStateModel::AwaitingArtifact,
            InstallState::InFlight { phase, stage } => InstallStateModel::InFlight {
                phase: *phase,
                stage: stage@,
            },
            InstallState::PersistingRegistry { phase, response_hash, address, stored } => {
                InstallStateModel::PersistingRegistry {
                    phase: *phase,
                    response_hash: response_hash@,
                    address: address@,
                    stored: *stored,
                }
            },
            InstallState::Done { address } => InstallStateModel::Done { address: address@ },
            InstallState::Failed { kind, error } => InstallStateModel::Failed {
                kind: *kind,
                message: error.0@,
            },
        }
    }
}

/// What the caller reports back.
#[derive(Debug)]
pub enum InstallEvent {
    Start,
    /// The registry as it is on disk.
    RegistryLoaded(L1XVMContractAddressRegistry),
    /// There is no registry on disk.
    RegistryUnavailable,
    /// The artifact's file as bytes: the code of an eBPF contract.
    ArtifactBinary(Vec<u8>),
    /// The artifact's file as text: the hex code of an EVM contract.
    ArtifactText(String),
    ArtifactUnavailable(String),
    /// A report on the transaction in flight.
    Txn(TxnEvent),
    /// The registry was written.
    Persisted,
    PersistFailed(String),
}

pub enum InstallEventModel {
    Start,
    RegistryLoaded(RegistryModel),
    RegistryUnavailable,
    ArtifactBinary(Seq<u8>),
    ArtifactText(Seq<char>),
    ArtifactUnavailable(Seq<char>),
    Txn(TxnEventModel),
    Persisted,
    PersistFailed(Seq<char>),
}

impl View for InstallEvent {
    type V = InstallEventModel;

    open spec fn view(&self) -> InstallEventModel {
        match self {
            InstallEvent::Start => InstallEventModel::Start,
            InstallEvent::RegistryLoaded(registry) => InstallEventModel::RegistryLoaded(registry@),
            InstallEvent::RegistryUnavailable => InstallEventModel::RegistryUnavailable,
            InstallEvent::ArtifactBinary(code) => InstallEventModel::ArtifactBinary(code@),
            InstallEvent::ArtifactText(code) => InstallEventModel::ArtifactText(code@),
            InstallEvent::ArtifactUnavailable(detail) => InstallEventModel::ArtifactUnavailable(
                detail@,
            ),
            InstallEvent::Txn(event) => InstallEventModel::Txn(event@),
            InstallEvent::Persisted => InstallEventModel::Persisted,
            InstallEvent::PersistFailed(detail) => InstallEventModel::PersistFailed(detail@),
        }
    }
}

/// What the caller is to do next.
#[derive(Debug)]
pub enum InstallAction {
    /// Read the registry from disk.
    LoadRegistry,
    /// Read the artifact's file.
    ReadArtifact { path: String },
    /// Do this for the transaction in flight.
    Txn(TxnAction),
    /// Write this registry to disk.
    StoreRegistry(L1XVMContractAddressRegistry),
    /// The run is over: the state says how.
    Finish,
    /// The state does not await this report; nothing has changed.
    Unexpected,
}

pub enum InstallActionModel {
    LoadRegistry,
    ReadArtifact { path: Seq<char> },
    Txn(TxnActionModel),
    StoreRegistry(RegistryModel),
    Finish,
    Unexpected,
}

impl View for InstallAction {
    type V = InstallActionModel;

    open spec fn view(&self) -> InstallActionModel {
        match self {
            InstallAction::LoadRegistry => InstallActionModel::LoadRegistry,
            InstallAction::ReadArtifact { path } => InstallActionModel::ReadArtifact {
                path: path@,
            },
            InstallAction::Txn(action) => InstallActionModel::Txn(action@),
            InstallAction::StoreRegistry(registry) => InstallActionModel::StoreRegistry(registry@),
            InstallAction::Finish => InstallActionModel::Finish,
            InstallAction::Unexpected => InstallActionModel::Unexpected,
        }
    }
}

/// The arguments with which a contract instance is initialised: `{}`.
pub open spec fn init_args() -> Seq<u8> {
    seq![0x7bu8, 0x7du8]
}

/// The file that holds the artifact's code.
pub open spec fn artifact_path(settings: InstallInternalModel, cmd: InstallCmdModel) -> Seq<char> {
    settings.cfg_ws_home + match cmd.vm_type {
        L1XVMType::L1xVmEbpf => "/l1x-artifacts/"@,
        L1XVMType::L1xVmEvm => "/l1x-evm-artifacts/"@,
    } + cmd.artifact_id
}

/// A failed run.
pub open spec fn failed(kind: ErrorKind, message: Seq<char>) -> (
    InstallStateModel,
    InstallActionModel,
) {
    (InstallStateModel::Failed { kind, message }, InstallActionModel::Finish)
}

/// The state and action for a step of the transaction in flight that did
/// not end in its events.
pub open spec fn in_flight(phase: InstallPhase, step: TxnStepModel) -> (
    InstallStateModel,
    InstallActionModel,
)
    recommends
        !(step is Confirmed),
{
    match step {
        TxnStepModel::Next { stage, action } => (
            InstallStateModel::InFlight { phase, stage },
            InstallActionModel::Txn(action),
        ),
        TxnStepModel::Failed { kind, message } => failed(kind, message),
        TxnStepModel::Unexpected { stage } => (
            InstallStateModel::InFlight { phase, stage },
            InstallActionModel::Unexpected,
        ),
        TxnStepModel::Confirmed { .. } => failed(ErrorKind::Rpc, Seq::empty()),
    }
}

/// The deployment of an eBPF contract: private, on the L1X VM, with the
/// artifact's bytes as its code.
pub open spec fn ebpf_deploy_spec(settings: InstallInternalModel, code: Seq<u8>) -> TxnStepModel {
    begin_spec(
        settings.private_key,
        TransactionModel::Deployment {
            access_type: AccessType::Private,
            contract_type: ContractType::L1xVm,
            code_bytes: code,
        },
    )
}

/// The deployment of an EVM contract: public, with the code that the
/// artifact's text holds as hex, once that text is brought to bare form.
pub open spec fn evm_deploy_spec(settings: InstallInternalModel, code: Seq<char>) -> TxnStepModel {
    if is_hex_encoding(normalize(code)) {
        begin_spec(
            settings.private_key,
            TransactionModel::Deployment {
                access_type: AccessType::Public,
                contract_type: ContractType::Evm,
                code_bytes: decode_hex(normalize(code)),
            },
        )
    } else {
        TxnStepModel::Failed {
            kind: ErrorKind::Encoding,
            message: "EVM Contract Deploy Failed: Hex File Parse Error"@,
        }
    }
}

/// The initialisation of a contract instance at a deployed address, given in
/// bare form.
pub open spec fn ebpf_init_spec(
    settings: InstallInternalModel,
    deploy_address: Seq<char>,
) -> TxnStepModel {
    if is_hex_encoding(deploy_address) {
        begin_spec(
            settings.private_key,
            TransactionModel::Init {
                deployed_address: decode_hex(deploy_address),
                init_args: init_args(),
            },
        )
    } else {
        TxnStepModel::Failed {
            kind: ErrorKind::Encoding,
            message: "eBPF Contract Init Failed: the deploy address is no hex"@,
        }
    }
}

/// The address that the registry holds for the artifact, unless a fresh
/// deployment is forced.
pub open spec fn cached_address(cmd: InstallCmdModel, registry: RegistryModel) -> Option<
    Seq<char>,
> {
    if cmd.force {
        None
    } else {
        match cmd.vm_type {
            L1XVMType::L1xVmEbpf => match lookup_ebpf(registry, cmd.artifact_id, None) {
                Ok(address) => Some(address),
                Err(_) => None,
            },
            L1XVMType::L1xVmEvm => match lookup_evm(registry, cmd.artifact_id) {
                Ok(address) => Some(address),
                Err(_) => None,
            },
        }
    }
}

/// What follows once the deployed address is known: an EVM install is done,
/// an eBPF install goes on to initialise an instance.
pub open spec fn after_deploy(
    settings: InstallInternalModel,
    cmd: InstallCmdModel,
    address: Seq<char>,
) -> (InstallStateModel, InstallActionModel) {
    match cmd.vm_type {
        L1XVMType::L1xVmEvm => (InstallStateModel::Done { address }, InstallActionModel::Finish),
        L1XVMType::L1xVmEbpf => in_flight(InstallPhase::Init, ebpf_init_spec(settings, address)),
    }
}

/// The address that the node's answers hold, as the node gave it.
///
/// For eBPF the address in the answer to the submission comes first, then
/// the first event as hex. For EVM only the `address` member of the first
/// event counts.
pub open spec fn resolved_address(
    vm_type: L1XVMType,
    response: SubmitResponseModel,
    events: Seq<Seq<u8>>,
) -> Result<Option<Seq<char>>, MalformedEvent> {
    match vm_type {
        L1XVMType::L1xVmEbpf => Ok(ebpf_address_spec(response.contract_address, events)),
        L1XVMType::L1xVmEvm => evm_events_spec(events),
    }
}

/// What follows the events of a transaction: with an address, recording it.
pub open spec fn after_events(
    cmd: InstallCmdModel,
    phase: InstallPhase,
    response: SubmitResponseModel,
    events: Seq<Seq<u8>>,
) -> (InstallStateModel, InstallActionModel) {
    match resolved_address(cmd.vm_type, response, events) {
        Err(_) => failed(ErrorKind::Encoding, "the first event is no JSON"@),
        Ok(None) => failed(ErrorKind::Confirmation, "no address resolved"@),
        Ok(Some(address)) => (
            InstallStateModel::PersistingRegistry {
                phase,
                response_hash: response.hash,
                address,
                stored: false,
            },
            InstallActionModel::LoadRegistry,
        ),
    }
}

/// The update that records `address`. An eBPF address is recorded in bare
/// form; an EVM address is handed on as the node gave it, and brought to
/// bare form by the registry.
pub open spec fn update_for(
    cmd: InstallCmdModel,
    phase: InstallPhase,
    response_hash: Seq<char>,
    address: Seq<char>,
) -> UpdateModel {
    match (cmd.vm_type, phase) {
        (L1XVMType::L1xVmEvm, _) => UpdateModel::EvmDeploy {
            artifact_id: cmd.artifact_id,
            response_hash,
            response_address: address,
        },
        (L1XVMType::L1xVmEbpf, InstallPhase::Deploy) => UpdateModel::EbpfDeploy {
            artifact_id: cmd.artifact_id,
            response_hash,
            response_address: normalize(address),
        },
        (L1XVMType::L1xVmEbpf, InstallPhase::Init) => UpdateModel::EbpfInit {
            artifact_id: cmd.artifact_id,
            contract_id: cmd.contract_id,
            response_hash,
            response_address: normalize(address),
        },
    }
}

/// The registry without entries.
pub open spec fn empty_registry() -> RegistryModel {
    RegistryModel { l1x_vm: Map::empty(), l1x_evm: Map::empty() }
}

/// What follows once the registry is read for recording: the changed
/// registry is to be written, unless the change is refused.
pub open spec fn after_registry_read(
    cmd: InstallCmdModel,
    phase: InstallPhase,
    response_hash: Seq<char>,
    address: Seq<char>,
    registry: RegistryModel,
) -> (InstallStateModel, InstallActionModel) {
    match apply_update(registry, update_for(cmd, phase, response_hash, address)) {
        None => failed(
            ErrorKind::RegistryInvariant,
            "Contract Deploy Info is missing for :: "@ + cmd.artifact_id,
        ),
        Some(changed) => (
            InstallStateModel::PersistingRegistry { phase, response_hash, address, stored: true },
            InstallActionModel::StoreRegistry(changed),
        ),
    }
}

/// One step of an install.
///
/// A state moves only on a report that it awaits. `Done` and `Failed` are
/// final.
pub open spec fn install_step(
    settings: InstallInternalModel,
    cmd: InstallCmdModel,
    state: InstallStateModel,
    event: InstallEventModel,
) -> (InstallStateModel, InstallActionModel) {
    match (state, event) {
        (InstallStateModel::Done { .. }, _) | (InstallStateModel::Failed { .. }, _) => (
            state,
            InstallActionModel::Finish,
        ),
        (InstallStateModel::Idle, InstallEventModel::Start) => (
            InstallStateModel::ResolveExisting,
            InstallActionModel::LoadRegistry,
        ),
        (InstallStateModel::ResolveExisting, InstallEventModel::RegistryLoaded(registry)) => {
            match cached_address(cmd, registry) {
                Some(address) => after_deploy(settings, cmd, address),
                None => (
                    InstallStateModel::AwaitingArtifact,
                    InstallActionModel::ReadArtifact { path: artifact_path(settings, cmd) },
                ),
            }
        },
        (InstallStateModel::ResolveExisting, InstallEventModel::RegistryUnavailable) => (
            InstallStateModel::AwaitingArtifact,
            InstallActionModel::ReadArtifact { path: artifact_path(settings, cmd) },
        ),
        (InstallStateModel::AwaitingArtifact, InstallEventModel::ArtifactBinary(code)) => {
            if cmd.vm_type == L1XVMType::L1xVmEbpf {
                in_flight(InstallPhase::Deploy, ebpf_deploy_spec(settings, code))
            } else {
                (state, InstallActionModel::Unexpected)
            }
        },
        (InstallStateModel::AwaitingArtifact, InstallEventModel::ArtifactText(code)) => {
            if cmd.vm_type == L1XVMType::L1xVmEvm {
                in_flight(InstallPhase::Deploy, evm_deploy_spec(settings, code))
            } else {
                (state, InstallActionModel::Unexpected)
            }
        },
        (InstallStateModel::AwaitingArtifact, InstallEventModel::ArtifactUnavailable(detail)) => {
            failed(ErrorKind::Encoding, detail)
        },
        (InstallStateModel::InFlight { phase, stage }, InstallEventModel::Txn(event)) => {
            match advance_spec(settings.private_key, cmd.fee_limit, stage, event) {
                TxnStepModel::Confirmed { response, events } => after_events(
                    cmd,
                    phase,
                    response,
                    events,
                ),
                step => in_flight(phase, step),
            }
        },
        (
            InstallStateModel::PersistingRegistry { phase, response_hash, address, stored: false },
            InstallEventModel::RegistryLoaded(registry),
        ) => after_registry_read(cmd, phase, response_hash, address, registry),
        (
            InstallStateModel::PersistingRegistry { phase, response_hash, address, stored: false },
            InstallEventModel::RegistryUnavailable,
        ) => after_registry_read(cmd, phase, response_hash, address, empty_registry()),
        (
            InstallStateModel::PersistingRegistry { phase, address, stored: true, .. },
            InstallEventModel::Persisted,
        ) => match phase {
            InstallPhase::Deploy => after_deploy(settings, cmd, normalize(address)),
            InstallPhase::Init => (
                InstallStateModel::Done { address: normalize(address) },
                InstallActionModel::Finish,
            ),
        },
        (
            InstallStateModel::PersistingRegistry { stored: true, .. },
            InstallEventModel::PersistFailed(detail),
        ) => failed(ErrorKind::RegistryIo, detail),
        (state, _) => (state, InstallActionModel::Unexpected),
    }
}

/// The install of one command under one set of settings.
pub struct L1XVmContractInstaller<'a> {
    pub install_cmd: &'a L1XVmInstallContractCmd,
    pub internal_installer: &'a L1XVmContractInstallInternal,
}

/// A failed run.
fn fail(kind: ErrorKind, message: String) -> (out: (InstallState, InstallAction))
    ensures
        (out.0@, out.1@) == failed(kind, message@),
{
    (
        InstallState::Failed { kind, error: L1XVmContractInstallError::new(message) },
        InstallAction::Finish,
    )
}

/// The state and action for a step of the transaction in flight.
fn lift(phase: InstallPhase, step: TxnStep) -> (out: (InstallState, InstallAction))
    requires
        !(step is Confirmed),
    ensures
        (out.0@, out.1@) == in_flight(phase, step@),
{
    match step {
        TxnStep::Next { stage, action } => (
            InstallState::InFlight { phase, stage },
            InstallAction::Txn(action),
        ),
        TxnStep::Failed { kind, message } => fail(kind, message),
        TxnStep::Unexpected { stage } => (
            InstallState::InFlight { phase, stage },
            InstallAction::Unexpected,
        ),
        TxnStep::Confirmed { .. } => fail(ErrorKind::Rpc, String::new()),
    }
}

impl<'a> L1XVmContractInstaller<'a> {
    pub fn new(
        install_cmd: &'a L1XVmInstallContractCmd,
        internal_installer: &'a L1XVmContractInstallInternal,
    ) -> (installer: Self)
        ensures
            installer.install_cmd == install_cmd,
            installer.internal_installer == internal_installer,
    {
        L1XVmContractInstaller { install_cmd, internal_installer }
    }

    /// Starts the initialisation of a contract instance at `deploy_address`,
    /// which is given in bare form: builds the transaction and asks for the
    /// nonce.
    pub fn l1x_ebpf_init_contract(&self, deploy_address: &str) -> (step: TxnStep)
        ensures
            step@ == ebpf_init_spec(self.internal_installer@, deploy_address@),
            !(step is Confirmed),
    {
        match decode(deploy_address) {
            Ok(deployed_address) => begin(
                self.internal_installer.private_key.as_str(),
                TransactionType::Init {
                    deployed_address,
                    init_args: init_args_bytes(),
                },
            ),
            Err(_) => TxnStep::Failed {
                kind: ErrorKind::Encoding,
                message: "eBPF Contract Init Failed: the deploy address is no hex".to_owned(),
            },
        }
    }

    /// Starts the deployment of an eBPF contract with the artifact's bytes
    /// as its code.
    pub fn l1x_ebpf_deploy_contract(&self, code: Vec<u8>) -> (step: TxnStep)
        ensures
            step@ == ebpf_deploy_spec(self.internal_installer@, code@),
            !(step is Confirmed),
    {
        begin(
            self.internal_installer.private_key.as_str(),
            TransactionType::Deployment {
                access_type: AccessType::Private,
                contract_type: ContractType::L1xVm,
                code_bytes: code,
            },
        )
    }

    /// Starts the deployment of an EVM contract from the hex text of its
    /// code.
    pub fn l1x_evm_deploy_contract(&self, hex_code: &str) -> (step: TxnStep)
        ensures
            step@ == evm_deploy_spec(self.internal_installer@, hex_code@),
            !(step is Confirmed),
    {
        let clean_hex_string = clean_address_string(hex_code);
        match decode(clean_hex_string.as_str()) {
            Ok(code_bytes) => begin(
                self.internal_installer.private_key.as_str(),
                TransactionType::Deployment {
                    access_type: AccessType::Public,
                    contract_type: ContractType::Evm,
                    code_bytes,
                },
            ),
            Err(_) => TxnStep::Failed {
                kind: ErrorKind::Encoding,
                message: "EVM Contract Deploy Failed: Hex File Parse Error".to_owned(),
            },
        }
    }
}

/// The bytes of `{}`.
fn init_args_bytes() -> (args: Vec<u8>)
    ensures
        args@ == init_args(),
{
    let mut args: Vec<u8> = Vec::new();
    args.push(0x7bu8);
    args.push(0x7du8);
    assert(args@ =~= init_args());
    args
}

/// The command as one for `vm_type`.
pub open spec fn for_vm(cmd: InstallCmdModel, vm_type: L1XVMType) -> InstallCmdModel {
    InstallCmdModel { vm_type, ..cmd }
}

impl L1XVmInstallContractCmd {
    /// One step of the install on the command's virtual machine.
    pub fn exec(
        &self,
        settings: &L1XVmContractInstallInternal,
        state: InstallState,
        event: InstallEvent,
    ) -> (out: (InstallState, InstallAction))
        ensures
            (out.0@, out.1@) == install_step(settings@, self@, state@, event@),
    {
        match self.vm_type {
            L1XVMType::L1xVmEbpf => self.l1x_ebpf_install_contract(settings, state, event),
            L1XVMType::L1xVmEvm => self.l1x_evm_install_contract(settings, state, event),
        }
    }

    /// One step of the install of an eBPF contract: deployment, then
    /// initialisation.
    pub fn l1x_ebpf_install_contract(
        &self,
        settings: &L1XVmContractInstallInternal,
        state: InstallState,
        event: InstallEvent,
    ) -> (out: (InstallState, InstallAction))
        ensures
            (out.0@, out.1@) == install_step(
                settings@,
                for_vm(self@, L1XVMType::L1xVmEbpf),
                state@,
                event@,
            ),
    {
        self.step_on(L1XVMType::L1xVmEbpf, settings, state, event)
    }

    /// One step of the install of an EVM contract: deployment only.
    pub fn l1x_evm_install_contract(
        &self,
        settings: &L1XVmContractInstallInternal,
        state: InstallState,
        event: InstallEvent,
    ) -> (out: (InstallState, InstallAction))
        ensures
            (out.0@, out.1@) == install_step(
                settings@,
                for_vm(self@, L1XVMType::L1xVmEvm),
                state@,
                event@,
            ),
    {
        self.step_on(L1XVMType::L1xVmEvm, settings, state, event)
    }

    /// The file that holds the artifact's code.
    fn artifact_file(&self, vm_type: L1XVMType, settings: &L1XVmContractInstallInternal) -> (path:
        String)
        ensures
            path@ == artifact_path(settings@, for_vm(self@, vm_type)),
    {
        let mut path = settings.cfg_ws_home.clone();
        match vm_type {
            L1XVMType::L1xVmEbpf => path.append("/l1x-artifacts/"),
            L1XVMType::L1xVmEvm => path.append("/l1x-evm-artifacts/"),
        }
        path.append(self.artifact_id.as_str());
        path
    }

    /// The address that the registry holds for the artifact, unless a fresh
    /// deployment is forced.
    fn cached(&self, vm_type: L1XVMType, registry: &L1XVMContractAddressRegistry) -> (address:
        Option<String>)
        ensures
            address.deep_view() == cached_address(for_vm(self@, vm_type), registry@),
    {
        if self.force {
            return None;
        }
        let artifact_deploy_status = match vm_type {
            L1XVMType::L1xVmEbpf => get_toolkit_ebpf_contract_address_for(
                registry,
                self.artifact_id.as_str(),
                None,
            ),
            L1XVMType::L1xVmEvm => get_toolkit_evm_contract_address_for(
                registry,
                self.artifact_id.as_str(),
                None,
            ),
        };
        match artifact_deploy_status {
            Ok(address) => Some(address),
            Err(_) => None,
        }
    }

    /// What follows once the deployed address is known.
    fn deployed(
        &self,
        vm_type: L1XVMType,
        settings: &L1XVmContractInstallInternal,
        address: String,
    ) -> (out: (InstallState, InstallAction))
        ensures
            (out.0@, out.1@) == after_deploy(settings@, for_vm(self@, vm_type), address@),
    {
        match vm_type {
            L1XVMType::L1xVmEvm => (InstallState::Done { address }, InstallAction::Finish),
            L1XVMType::L1xVmEbpf => {
                let installer = L1XVmContractInstaller::new(self, settings);
                lift(InstallPhase::Init, installer.l1x_ebpf_init_contract(address.as_str()))
            },
        }
    }

    /// What follows the events of a transaction.
    fn confirmed(
        &self,
        vm_type: L1XVMType,
        phase: InstallPhase,
        response: SubmitTransactionResponse,
        events: Vec<Vec<u8>>,
    ) -> (out: (InstallState, InstallAction))
        ensures
            (out.0@, out.1@) == after_events(
                for_vm(self@, vm_type),
                phase,
                response@,
                events.deep_view(),
            ),
    {
        let SubmitTransactionResponse { hash, contract_address } = response;
        let resolved = match vm_type {
            L1XVMType::L1xVmEbpf => Ok(ebpf_event_address(contract_address, &events)),
            L1XVMType::L1xVmEvm => evm_event_address(&events),
        };
        match resolved {
            Err(_) => fail(ErrorKind::Encoding, "the first event is no JSON".to_owned()),
            Ok(None) => fail(ErrorKind::Confirmation, "no address resolved".to_owned()),
            Ok(Some(address)) => (
                InstallState::PersistingRegistry {
                    phase,
                    response_hash: hash,
                    address,
                    stored: false,
                },
                InstallAction::LoadRegistry,
            ),
        }
    }

    /// The update that records `address`.
    fn update(&self, vm_type: L1XVMType, phase: InstallPhase, response_hash: &String, address: &String)
        -> (update: L1XVMContractAddressUpdateType)
        ensures
            update@ == update_for(for_vm(self@, vm_type), phase, response_hash@, address@),
    {
        match vm_type {
            L1XVMType::L1xVmEvm => L1XVMContractAddressUpdateType::L1XEVM_DEPLOY {
                artifact_id: self.artifact_id.clone(),
                response_hash: response_hash.clone(),
                response_address: address.clone(),
            },
            L1XVMType::L1xVmEbpf => match phase {
                InstallPhase::Deploy => L1XVMContractAddressUpdateType::L1XEBPF_DEPLOY {
                    artifact_id: self.artifact_id.clone(),
                    response_hash: response_hash.clone(),
                    response_address: clean_address_string(address.as_str()),
                },
                InstallPhase::Init => L1XVMContractAddressUpdateType::L1XEBPF_INIT {
                    artifact_id: self.artifact_id.clone(),
                    contract_id: self.contract_id.clone(),
                    response_hash: response_hash.clone(),
                    response_address: clean_address_string(address.as_str()),
                },
            },
        }
    }

    /// What follows once the registry is read for recording.
    fn record(
        &self,
        vm_type: L1XVMType,
        phase: InstallPhase,
        response_hash: String,
        address: String,
        registry: L1XVMContractAddressRegistry,
    ) -> (out: (InstallState, InstallAction))
        ensures
            (out.0@, out.1@) == after_registry_read(
                for_vm(self@, vm_type),
                phase,
                response_hash@,
                address@,
                registry@,
            ),
    {
        let mut registry = registry;
        let update = self.update(vm_type, phase, &response_hash, &address);
        match update_toolkit_contract_address_registry(&mut registry, update) {
            Err(_) => {
                let mut message = "Contract Deploy Info is missing for :: ".to_owned();
                message.append(self.artifact_id.as_str());
                fail(ErrorKind::RegistryInvariant, message)
            },
            Ok(()) => (
                InstallState::PersistingRegistry { phase, response_hash, address, stored: true },
                InstallAction::StoreRegistry(registry),
            ),
        }
    }

    /// One step of the install on `vm_type`.
    fn step_on(
        &self,
        vm_type: L1XVMType,
        settings: &L1XVmContractInstallInternal,
        state: InstallState,
        event: InstallEvent,
    ) -> (out: (InstallState, InstallAction))
        ensures
            (out.0@, out.1@) == install_step(settings@, for_vm(self@, vm_type), state@, event@),
    {
        match state {
            InstallState::Done { address } => (InstallState::Done { address }, InstallAction::Finish),
            InstallState::Failed { kind, error } => (
                InstallState::Failed { kind, error },
                InstallAction::Finish,
            ),
            InstallState::Idle => match event {
                InstallEvent::Start => (InstallState::ResolveExisting, InstallAction::LoadRegistry),
                _ => (InstallState::Idle, InstallAction::Unexpected),
            },
            InstallState::ResolveExisting => match event {
                InstallEvent::RegistryLoaded(registry) => match self.cached(vm_type, &registry) {
                    Some(address) => self.deployed(vm_type, settings, address),
                    None => (
                        InstallState::AwaitingArtifact,
                        InstallAction::ReadArtifact { path: self.artifact_file(vm_type, settings) },
                    ),
                },
                InstallEvent::RegistryUnavailable => (
                    InstallState::AwaitingArtifact,
                    InstallAction::ReadArtifact { path: self.artifact_file(vm_type, settings) },
                ),
                _ => (InstallState::ResolveExisting, InstallAction::Unexpected),
            },
            InstallState::AwaitingArtifact => {
                let installer = L1XVmContractInstaller::new(self, settings);
                match event {
                    InstallEvent::ArtifactBinary(code) => match vm_type {
                        L1XVMType::L1xVmEbpf => lift(
                            InstallPhase::Deploy,
                            installer.l1x_ebpf_deploy_contract(code),
                        ),
                        L1XVMType::L1xVmEvm => (
                            InstallState::AwaitingArtifact,
                            InstallAction::Unexpected,
                        ),
                    },
                    InstallEvent::ArtifactText(code) => match vm_type {
                        L1XVMType::L1xVmEvm => lift(
                            InstallPhase::Deploy,
                            installer.l1x_evm_deploy_contract(code.as_str()),
                        ),
                        L1XVMType::L1xVmEbpf => (
                            InstallState::AwaitingArtifact,
                            InstallAction::Unexpected,
                        ),
                    },
                    InstallEvent::ArtifactUnavailable(detail) => fail(ErrorKind::Encoding, detail),
                    _ => (InstallState::AwaitingArtifact, InstallAction::Unexpected),
                }
            },
            InstallState::InFlight { phase, stage } => match event {
                InstallEvent::Txn(event) => {
                    match settings.submit_transaction(self, stage, event) {
                        TxnStep::Confirmed { response, events } => self.confirmed(
                            vm_type,
                            phase,
                            response,
                            events,
                        ),
                        step => lift(phase, step),
                    }
                },
                _ => (InstallState::InFlight { phase, stage }, InstallAction::Unexpected),
            },
            InstallState::PersistingRegistry { phase, response_hash, address, stored } => {
                if !stored {
                    match event {
                        InstallEvent::RegistryLoaded(registry) => self.record(
                            vm_type,
                            phase,
                            response_hash,
                            address,
                            registry,
                        ),
                        InstallEvent::RegistryUnavailable => self.record(
                            vm_type,
                            phase,
                            response_hash,
                            address,
                            L1XVMContractAddressRegistry::new(),
                        ),
                        _ => (
                            InstallState::PersistingRegistry {
                                phase,
                                response_hash,
                                address,
                                stored,
                            },
                            InstallAction::Unexpected,
                        ),
                    }
                } else {
                    match event {
                        InstallEvent::Persisted => {
                            let clean = clean_address_string(address.as_str());
                            match phase {
                                InstallPhase::Deploy => self.deployed(vm_type, settings, clean),
                                InstallPhase::Init => (
                                    InstallState::Done { address: clean },
                                    InstallAction::Finish,
                                ),
                            }
                        },
                        InstallEvent::PersistFailed(detail) => fail(ErrorKind::RegistryIo, detail),
                        _ => (
                            InstallState::PersistingRegistry {
                                phase,
                                response_hash,
                                address,
                                stored,
                            },
                            InstallAction::Unexpected,
                        ),
                    }
                }
            },
        }
    }
}

/// The stages that a run passes through, by name.
#[derive(Clone, Copy, Debug, PartialEq, Eq, Structural)]
pub enum StageName {
    Idle,
    ResolveExisting,
    Deploying,
    Initializing,
    Confirming,
    PersistingRegistry,
    Done,
    Failed,
}

/// The name of the stage that a state belongs to.
pub open spec fn stage_name(state: InstallStateModel) -> StageName {
    match state {
        InstallStateModel::Idle => StageName::Idle,
        InstallStateModel::ResolveExisting => StageName::ResolveExisting,
        InstallStateModel::AwaitingArtifact => StageName::Deploying,
        InstallStateModel::InFlight { stage: TxnStageModel::Confirming { .. }, .. } => {
            StageName::Confirming
        },
        InstallStateModel::InFlight { phase: InstallPhase::Deploy, .. } => StageName::Deploying,
        InstallStateModel::InFlight { phase: InstallPhase::Init, .. } => StageName::Initializing,
        InstallStateModel::PersistingRegistry { .. } => StageName::PersistingRegistry,
        InstallStateModel::Done { .. } => StageName::Done,
        InstallStateModel::Failed { .. } => StageName::Failed,
    }
}

/// The action sends a transaction to the node.
pub open spec fn submits(action: InstallActionModel) -> bool {
    action matches InstallActionModel::Txn(TxnActionModel::Submit(_))
}

/// The action sends a deployment to the node.
pub open spec fn submits_deployment(action: InstallActionModel) -> bool {
    action matches InstallActionModel::Txn(TxnActionModel::Submit(signed))
        && signed.transaction_type is Deployment
}

/// The state after the reports `events`, one after the other, from `state`.
pub open spec fn install_run(
    settings: InstallInternalModel,
    cmd: InstallCmdModel,
    state: InstallStateModel,
    events: Seq<InstallEventModel>,
) -> InstallStateModel
    decreases events.len(),
{
    if events.len() == 0 {
        state
    } else {
        install_step(
            settings,
            cmd,
            install_run(settings, cmd, state, events.drop_last()),
            events.last(),
        ).0
    }
}

/// The action that answers the report `events[at]` in the run from `state`.
pub open spec fn install_action_at(
    settings: InstallInternalModel,
    cmd: InstallCmdModel,
    state: InstallStateModel,
    events: Seq<InstallEventModel>,
    at: int,
) -> InstallActionModel {
    install_step(settings, cmd, install_run(settings, cmd, state, events.take(at)), events[at]).1
}

/// The deployment is behind the run: it is initialising, recording the
/// instance, or over, and what is in flight is no deployment.
pub open spec fn past_deployment(state: InstallStateModel) -> bool {
    match state {
        InstallStateModel::Done { .. } | InstallStateModel::Failed { .. } => true,
        InstallStateModel::PersistingRegistry { phase, .. } => phase == InstallPhase::Init,
        InstallStateModel::InFlight { phase, stage } => phase == InstallPhase::Init && match stage {
            TxnStageModel::AwaitingNonce { transaction } => !(transaction is Deployment),
            TxnStageModel::AwaitingSignature { unsigned } => !(unsigned.transaction_type
                is Deployment),
            _ => true,
        },
        _ => false,
    }
}

/// Idempotent install: with `force` unset, an artifact that the registry
/// knows is not deployed again. The step out of `ResolveExisting` submits
/// nothing and asks for no artifact; an EVM install is done at once, with the
/// address from the registry, and an eBPF install goes straight on to
/// initialise at that address.
pub proof fn lemma_known_artifact_is_not_deployed(
    settings: InstallInternalModel,
    cmd: InstallCmdModel,
    registry: RegistryModel,
)
    requires
        !cmd.force,
        cached_address(cmd, registry) is Some,
    ensures
        ({
            let address = cached_address(cmd, registry)->0;
            let (next, action) = install_step(
                settings,
                cmd,
                InstallStateModel::ResolveExisting,
                InstallEventModel::RegistryLoaded(registry),
            );
            &&& !submits(action)
            &&& !(action is ReadArtifact)
            &&& stage_name(next) != StageName::Deploying
            &&& past_deployment(next)
            &&& cmd.vm_type == L1XVMType::L1xVmEvm ==> next == (InstallStateModel::Done { address })
                && action == InstallActionModel::Finish
            &&& cmd.vm_type == L1XVMType::L1xVmEbpf ==> (next, action) == in_flight(
                InstallPhase::Init,
                ebpf_init_spec(settings, address),
            )
        }),
{
}

/// Once the deployment is behind a run, it stays behind it: no step submits
/// a deployment or asks for the artifact.
pub proof fn lemma_past_deployment_step(
    settings: InstallInternalModel,
    cmd: InstallCmdModel,
    state: InstallStateModel,
    event: InstallEventModel,
)
    requires
        past_deployment(state),
    ensures
        past_deployment(install_step(settings, cmd, state, event).0),
        !submits_deployment(install_step(settings, cmd, state, event).1),
        !(install_step(settings, cmd, state, event).1 is ReadArtifact),
{
}

/// Every state of a run that starts behind the deployment is behind it.
pub proof fn lemma_past_deployment_run(
    settings: InstallInternalModel,
    cmd: InstallCmdModel,
    state: InstallStateModel,
    events: Seq<InstallEventModel>,
)
    requires
        past_deployment(state),
    ensures
        past_deployment(install_run(settings, cmd, state, events)),
    decreases events.len(),
{
    if events.len() > 0 {
        lemma_past_deployment_run(settings, cmd, state, events.drop_last());
        lemma_past_deployment_step(
            settings,
            cmd,
            install_run(settings, cmd, state, events.drop_last()),
            events.last(),
        );
    }
}

/// A run splits at any point into the run up to it and the run from there.
pub proof fn lemma_install_run_split(
    settings: InstallInternalModel,
    cmd: InstallCmdModel,
    state: InstallStateModel,
    events: Seq<InstallEventModel>,
    at: int,
)
    requires
        0 <= at <= events.len(),
    ensures
        install_run(settings, cmd, state, events) == install_run(
            settings,
            cmd,
            install_run(settings, cmd, state, events.take(at)),
            events.skip(at),
        ),
    decreases events.len(),
{
    if at == events.len() {
        assert(events.take(at) =~= events);
        assert(events.skip(at).len() == 0);
    } else {
        lemma_install_run_split(settings, cmd, state, events.drop_last(), at);
        assert(events.drop_last().take(at) =~= events.take(at));
        assert(events.drop_last().skip(at) =~= events.skip(at).drop_last());
        assert(events.skip(at).last() == events.last());
    }
}

/// Idempotent install, over a whole run: when a run starts, is told the
/// registry, and the registry knows the artifact while `force` is unset,
/// then whatever is reported afterwards, no deployment is ever submitted
/// and the artifact is never asked for.
pub proof fn lemma_known_artifact_run_never_deploys(
    settings: InstallInternalModel,
    cmd: InstallCmdModel,
    registry: RegistryModel,
    events: Seq<InstallEventModel>,
    at: int,
)
    requires
        !cmd.force,
        cached_address(cmd, registry) is Some,
        events.len() >= 2,
        events[0] == InstallEventModel::Start,
        events[1] == InstallEventModel::RegistryLoaded(registry),
        0 <= at < events.len(),
    ensures
        !submits_deployment(install_action_at(settings, cmd, InstallStateModel::Idle, events, at)),
        !(install_action_at(settings, cmd, InstallStateModel::Idle, events, at) is ReadArtifact),
{
    let idle = InstallStateModel::Idle;
    let first = events.take(1);
    let second = events.take(2);
    assert(first.drop_last() =~= Seq::<InstallEventModel>::empty());
    assert(install_run(settings, cmd, idle, first.drop_last()) == idle);
    assert(install_run(settings, cmd, idle, first) == InstallStateModel::ResolveExisting);
    assert(second.drop_last() =~= first);
    assert(second.last() == events[1]);
    lemma_known_artifact_is_not_deployed(settings, cmd, registry);
    let resolved = install_run(settings, cmd, idle, second);
    assert(past_deployment(resolved));
    if at == 0 {
        assert(events.take(0) =~= Seq::<InstallEventModel>::empty());
    } else if at == 1 {
    } else {
        let before = events.take(at);
        lemma_install_run_split(settings, cmd, idle, before, 2);
        assert(before.take(2) =~= second);
        lemma_past_deployment_run(settings, cmd, resolved, before.skip(2));
        lemma_past_deployment_step(
            settings,
            cmd,
            install_run(settings, cmd, idle, before),
            events[at],
        );
    }
}

/// The order of a run is fixed. A transaction is submitted only once its
/// nonce is known and it is signed. Events are polled only for a submission
/// that the node accepted, after the delay, and under that submission's hash.
/// The registry is read for recording only after the events are in and an
/// address was resolved, and written only after it was read. A step that
/// fails writes nothing, and a run is over exactly when it is `Done` or
/// `Failed`.
pub proof fn lemma_install_order(
    settings: InstallInternalModel,
    cmd: InstallCmdModel,
    state: InstallStateModel,
    event: InstallEventModel,
)
    ensures
        ({
            let (next, action) = install_step(settings, cmd, state, event);
            &&& submits(action) ==> (state matches InstallStateModel::InFlight { stage, .. }
                && (stage is AwaitingNonce || stage is AwaitingSignature))
            &&& (action matches InstallActionModel::Txn(
                TxnActionModel::GetEvents { tx_hash, timestamp },
            ) ==> {
                &&& state matches InstallStateModel::InFlight {
                    stage: TxnStageModel::Confirming { response, delay_elapsed: false },
                    ..
                }
                &&& event == InstallEventModel::Txn(TxnEventModel::DelayElapsed)
                &&& tx_hash == response.hash
                &&& timestamp == 0
            })
            &&& (action matches InstallActionModel::Txn(TxnActionModel::Wait { seconds }) ==> {
                &&& state matches InstallStateModel::InFlight {
                    stage: TxnStageModel::AwaitingSubmission,
                    ..
                }
                &&& event matches InstallEventModel::Txn(TxnEventModel::Submitted(_))
                &&& seconds == 10
            })
            &&& (next is PersistingRegistry && !next->stored && !(state is PersistingRegistry))
                ==> ({
                &&& state matches InstallStateModel::InFlight {
                    stage: TxnStageModel::Confirming { delay_elapsed: true, .. },
                    ..
                }
                &&& event matches InstallEventModel::Txn(TxnEventModel::Events(_))
            })
            &&& action is StoreRegistry ==> (state is PersistingRegistry && !state->stored)
            &&& next is Failed ==> action == InstallActionModel::Finish
            &&& action == InstallActionModel::Finish <==> (next is Done || next is Failed)
            &&& action == InstallActionModel::Unexpected ==> next == state
        }),
{
}

/// A submission that the node refuses ends the run, with nothing written.
pub proof fn lemma_refused_submission_fails(
    settings: InstallInternalModel,
    cmd: InstallCmdModel,
    phase: InstallPhase,
    detail: Seq<char>,
)
    ensures
        install_step(
            settings,
            cmd,
            InstallStateModel::InFlight { phase, stage: TxnStageModel::AwaitingSubmission },
            InstallEventModel::Txn(TxnEventModel::SubmitFailed(detail)),
        ) == failed(ErrorKind::Rpc, detail),
{
}

/// An instance is never recorded for an artifact that has no deployment:
/// the run fails with a registry invariant error, and no registry is handed
/// out to be written.
pub proof fn lemma_orphan_instance_is_refused(
    settings: InstallInternalModel,
    cmd: InstallCmdModel,
    response_hash: Seq<char>,
    address: Seq<char>,
    registry: RegistryModel,
)
    requires
        cmd.vm_type == L1XVMType::L1xVmEbpf,
        !registry.l1x_vm.contains_key(cmd.artifact_id),
    ensures
        ({
            let (next, action) = install_step(
                settings,
                cmd,
                InstallStateModel::PersistingRegistry {
                    phase: InstallPhase::Init,
                    response_hash,
                    address,
                    stored: false,
                },
                InstallEventModel::RegistryLoaded(registry),
            );
            &&& next matches InstallStateModel::Failed { kind: ErrorKind::RegistryInvariant, .. }
            &&& action == InstallActionModel::Finish
        }),
{
}

/// What is recorded reads back: in the registry that a run hands out to be
/// written, the address of the artifact, or of the instance, is the bare form
/// of the address that was resolved, which is also the address that the run
/// reports when it is done.
pub proof fn lemma_recorded_address_reads_back(
    cmd: InstallCmdModel,
    phase: InstallPhase,
    response_hash: Seq<char>,
    address: Seq<char>,
    registry: RegistryModel,
)
    requires
        apply_update(registry, update_for(cmd, phase, response_hash, address)) is Some,
    ensures
        ({
            let changed = apply_update(registry, update_for(cmd, phase, response_hash, address))->0;
            let read = match (cmd.vm_type, phase) {
                (L1XVMType::L1xVmEvm, _) => lookup_evm(changed, cmd.artifact_id),
                (L1XVMType::L1xVmEbpf, InstallPhase::Deploy) => lookup_ebpf(
                    changed,
                    cmd.artifact_id,
                    None,
                ),
                (L1XVMType::L1xVmEbpf, InstallPhase::Init) => lookup_ebpf(
                    changed,
                    cmd.artifact_id,
                    Some(cmd.contract_id),
                ),
            };
            read == Ok::<Seq<char>, crate::toolkit_config::RegistryLookupError>(normalize(address))
        }),
{
    crate::toolkit_config::lemma_normalize_no_trailing_quote(address);
    match (cmd.vm_type, phase) {
        (L1XVMType::L1xVmEvm, _) => {
            crate::toolkit_config::lemma_evm_deploy_then_get(
                registry,
                cmd.artifact_id,
                response_hash,
                address,
            );
        },
        (L1XVMType::L1xVmEbpf, InstallPhase::Deploy) => {
            crate::toolkit_config::lemma_ebpf_deploy_then_get(
                registry,
                cmd.artifact_id,
                response_hash,
                normalize(address),
            );
        },
        (L1XVMType::L1xVmEbpf, InstallPhase::Init) => {
            crate::toolkit_config::lemma_ebpf_init_then_get(
                registry,
                cmd.artifact_id,
                cmd.contract_id,
                response_hash,
                normalize(address),
            );
        },
    }
}

/// The action asks the node for events.
pub open spec fn polls(action: InstallActionModel) -> bool {
    action matches InstallActionModel::Txn(TxnActionModel::GetEvents { .. })
}

/// The action hands a registry out to be written.
pub open spec fn stores(action: InstallActionModel) -> bool {
    action is StoreRegistry
}

/// Nothing has been submitted yet, or the run is over.
pub open spec fn before_submission(state: InstallStateModel) -> bool {
    match state {
        InstallStateModel::Idle
        | InstallStateModel::ResolveExisting
        | InstallStateModel::AwaitingArtifact
        | InstallStateModel::Done { .. }
        | InstallStateModel::Failed { .. } => true,
        InstallStateModel::InFlight { stage, .. } => stage is AwaitingNonce || stage
            is AwaitingSignature,
        InstallStateModel::PersistingRegistry { .. } => false,
    }
}

/// Nothing has been polled yet, or the run is over.
pub open spec fn before_polling(state: InstallStateModel) -> bool {
    before_submission(state) || (state matches InstallStateModel::InFlight { stage, .. } && (stage
        is AwaitingSubmission || stage matches TxnStageModel::Confirming {
        delay_elapsed: false,
        ..
    }))
}

/// Until something is submitted, nothing is polled and nothing is stored.
pub proof fn lemma_before_submission_step(
    settings: InstallInternalModel,
    cmd: InstallCmdModel,
    state: InstallStateModel,
    event: InstallEventModel,
)
    requires
        before_submission(state),
    ensures
        !polls(install_step(settings, cmd, state, event).1),
        !stores(install_step(settings, cmd, state, event).1),
        !submits(install_step(settings, cmd, state, event).1) ==> before_submission(
            install_step(settings, cmd, state, event).0,
        ),
{
}

/// Until something is polled, nothing is stored.
pub proof fn lemma_before_polling_step(
    settings: InstallInternalModel,
    cmd: InstallCmdModel,
    state: InstallStateModel,
    event: InstallEventModel,
)
    requires
        before_polling(state),
    ensures
        !stores(install_step(settings, cmd, state, event).1),
        !polls(install_step(settings, cmd, state, event).1) ==> before_polling(
            install_step(settings, cmd, state, event).0,
        ),
{
}

/// Submission comes before polling and before persistence: in a run from
/// `Idle`, a step that follows no submission neither polls for events nor
/// hands out a registry to be written.
pub proof fn lemma_submission_precedes_polling(
    settings: InstallInternalModel,
    cmd: InstallCmdModel,
    events: Seq<InstallEventModel>,
    at: int,
)
    requires
        0 <= at < events.len(),
        forall|earlier: int|
            0 <= earlier < at ==> !submits(
                #[trigger] install_action_at(
                    settings,
                    cmd,
                    InstallStateModel::Idle,
                    events,
                    earlier,
                ),
            ),
    ensures
        before_submission(install_run(settings, cmd, InstallStateModel::Idle, events.take(at))),
        !polls(install_action_at(settings, cmd, InstallStateModel::Idle, events, at)),
        !stores(install_action_at(settings, cmd, InstallStateModel::Idle, events, at)),
    decreases at,
{
    let idle = InstallStateModel::Idle;
    if at == 0 {
        assert(events.take(0) =~= Seq::<InstallEventModel>::empty());
    } else {
        lemma_submission_precedes_polling(settings, cmd, events, at - 1);
        let before = install_run(settings, cmd, idle, events.take(at - 1));
        lemma_before_submission_step(settings, cmd, before, events[at - 1]);
        assert(events.take(at).drop_last() =~= events.take(at - 1));
        assert(events.take(at).last() == events[at - 1]);
        assert(!submits(install_action_at(settings, cmd, idle, events, at - 1)));
    }
    lemma_before_submission_step(
        settings,
        cmd,
        install_run(settings, cmd, idle, events.take(at)),
        events[at],
    );
}

/// Polling comes before persistence: in a run from `Idle`, a step that
/// follows no poll for events hands out no registry to be written.
pub proof fn lemma_polling_precedes_persistence(
    settings: InstallInternalModel,
    cmd: InstallCmdModel,
    events: Seq<InstallEventModel>,
    at: int,
)
    requires
        0 <= at < events.len(),
        forall|earlier: int|
            0 <= earlier < at ==> !polls(
                #[trigger] install_action_at(
                    settings,
                    cmd,
                    InstallStateModel::Idle,
                    events,
                    earlier,
                ),
            ),
    ensures
        before_polling(install_run(settings, cmd, InstallStateModel::Idle, events.take(at))),
        !stores(install_action_at(settings, cmd, InstallStateModel::Idle, events, at)),
    decreases at,
{
    let idle = InstallStateModel::Idle;
    if at == 0 {
        assert(events.take(0) =~= Seq::<InstallEventModel>::empty());
    } else {
        lemma_polling_precedes_persistence(settings, cmd, events, at - 1);
        let before = install_run(settings, cmd, idle, events.take(at - 1));
        lemma_before_polling_step(settings, cmd, before, events[at - 1]);
        assert(events.take(at).drop_last() =~= events.take(at - 1));
        assert(events.take(at).last() == events[at - 1]);
        assert(!polls(install_action_at(settings, cmd, idle, events, at - 1)));
    }
    lemma_before_polling_step(
        settings,
        cmd,
        install_run(settings, cmd, idle, events.take(at)),
        events[at],
    );
}

} // verus!
