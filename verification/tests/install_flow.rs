use l1x_forge::contract_install::{
    InstallAction, InstallEvent, InstallPhase, InstallState, L1XVMType,
    L1XVmContractInstallError, L1XVmContractInstallInternal, L1XVmContractInstaller,
    L1XVmInstallContractCmd,
};
use l1x_forge::error::ErrorKind;
use l1x_forge::pipeline::{SubmitTransactionResponse, TxnAction, TxnEvent, TxnStage, TxnStep};
use l1x_forge::signer::SubmitRequestError;
use l1x_forge::toolkit_config::{
    get_toolkit_ebpf_contract_address_for, get_toolkit_evm_contract_address_for,
    update_toolkit_contract_address_registry, L1XVMContractAddressRegistry,
    L1XVMContractAddressUpdateType,
};
use l1x_forge::transaction::{AccessType, ContractType, TransactionType};

const KEY_ONE: &str = "0000000000000000000000000000000000000000000000000000000000000001";
const KEY_ONE_PUBLIC: &str = "0279be667ef9dcbbac55a06295ce870b07029bfcdb2dce28d959f2815b16f81798";
const ADDRESS: &str = "abcdef0123456789abcdef0123456789abcdef01";
const INSTANCE: &str = "00112233445566778899aabbccddeeff00112233";

fn settings() -> L1XVmContractInstallInternal {
    L1XVmContractInstallInternal::new(
        "/ws".to_string(),
        "/scripts".to_string(),
        KEY_ONE.to_string(),
    )
    .unwrap()
}

fn command(vm_type: L1XVMType, force: bool) -> L1XVmInstallContractCmd {
    L1XVmInstallContractCmd {
        vm_type,
        force,
        contract_id: "token-a".to_string(),
        artifact_id: "ft-v1".to_string(),
        owner: "ava".to_string(),
        fee_limit: 100,
        req_id: 1,
    }
}

fn registry_with_ebpf(address: &str) -> L1XVMContractAddressRegistry {
    let mut registry = L1XVMContractAddressRegistry::new();
    update_toolkit_contract_address_registry(
        &mut registry,
        L1XVMContractAddressUpdateType::L1XEBPF_DEPLOY {
            artifact_id: "ft-v1".to_string(),
            response_hash: "old-hash".to_string(),
            response_address: address.to_string(),
        },
    )
    .unwrap();
    registry
}

fn registry_with_evm(address: &str) -> L1XVMContractAddressRegistry {
    let mut registry = L1XVMContractAddressRegistry::new();
    update_toolkit_contract_address_registry(
        &mut registry,
        L1XVMContractAddressUpdateType::L1XEVM_DEPLOY {
            artifact_id: "ft-v1".to_string(),
            response_hash: "old-hash".to_string(),
            response_address: address.to_string(),
        },
    )
    .unwrap();
    registry
}

fn submitted(hash: &str, address: Option<&str>) -> InstallEvent {
    InstallEvent::Txn(TxnEvent::Submitted(SubmitTransactionResponse {
        hash: hash.to_string(),
        contract_address: address.map(|a| a.to_string()),
    }))
}

struct Run {
    cmd: L1XVmInstallContractCmd,
    settings: L1XVmContractInstallInternal,
    state: Option<InstallState>,
    submissions: Vec<TransactionType>,
    polls: usize,
    artifact_reads: usize,
}

impl Run {
    fn new(vm_type: L1XVMType, force: bool) -> Run {
        Run {
            cmd: command(vm_type, force),
            settings: settings(),
            state: Some(InstallState::Idle),
            submissions: Vec::new(),
            polls: 0,
            artifact_reads: 0,
        }
    }

    fn at(state: InstallState, vm_type: L1XVMType) -> Run {
        let mut run = Run::new(vm_type, false);
        run.state = Some(state);
        run
    }

    fn tell(&mut self, event: InstallEvent) -> InstallAction {
        let state = self.state.take().unwrap();
        let (next, action) = self.cmd.exec(&self.settings, state, event);
        self.state = Some(next);
        match &action {
            InstallAction::Txn(TxnAction::Submit(signed)) => {
                self.submissions.push(signed.transaction_type.duplicate());
            }
            InstallAction::Txn(TxnAction::GetEvents { .. }) => self.polls += 1,
            InstallAction::ReadArtifact { .. } => self.artifact_reads += 1,
            _ => {}
        }
        action
    }

    fn state(&self) -> &InstallState {
        self.state.as_ref().unwrap()
    }

    fn failed_with(&self) -> Option<ErrorKind> {
        match self.state() {
            InstallState::Failed { kind, .. } => Some(*kind),
            _ => None,
        }
    }
}

fn stored(action: InstallAction) -> L1XVMContractAddressRegistry {
    match action {
        InstallAction::StoreRegistry(registry) => registry,
        other => panic!("no registry to store: {:?}", other),
    }
}

#[test]
fn evm_install_of_an_unknown_artifact() {
    let mut run = Run::new(L1XVMType::L1xVmEvm, false);

    assert!(matches!(run.tell(InstallEvent::Start), InstallAction::LoadRegistry));
    assert_eq!(run.state(), &InstallState::ResolveExisting);

    let action = run.tell(InstallEvent::RegistryLoaded(L1XVMContractAddressRegistry::new()));
    match action {
        InstallAction::ReadArtifact { path } => assert_eq!(path, "/ws/l1x-evm-artifacts/ft-v1"),
        other => panic!("{:?}", other),
    }
    assert_eq!(run.state(), &InstallState::AwaitingArtifact);

    let action = run.tell(InstallEvent::ArtifactText("0x6001600201\n".to_string()));
    match action {
        InstallAction::Txn(TxnAction::FetchNonce { verifying_key }) => {
            assert_eq!(hex::encode(verifying_key), KEY_ONE_PUBLIC)
        }
        other => panic!("{:?}", other),
    }
    let deployment = TransactionType::Deployment {
        access_type: AccessType::Public,
        contract_type: ContractType::Evm,
        code_bytes: vec![0x60, 0x01, 0x60, 0x02, 0x01],
    };
    assert_eq!(
        run.state(),
        &InstallState::InFlight {
            phase: InstallPhase::Deploy,
            stage: TxnStage::AwaitingNonce { transaction: deployment.duplicate() },
        }
    );

    let action = run.tell(InstallEvent::Txn(TxnEvent::Nonce(5)));
    match action {
        InstallAction::Txn(TxnAction::Sign(unsigned)) => {
            assert_eq!(unsigned.nonce, 6);
            assert_eq!(unsigned.fee_limit, 100);
            assert_eq!(hex::encode(&unsigned.verifying_key), KEY_ONE_PUBLIC);
            assert_eq!(unsigned.transaction_type, deployment);
        }
        other => panic!("{:?}", other),
    }

    let action = run.tell(InstallEvent::Txn(TxnEvent::Signature(vec![7; 64])));
    match action {
        InstallAction::Txn(TxnAction::Submit(signed)) => {
            assert_eq!(signed.nonce, 6);
            assert_eq!(signed.fee_limit, 100);
            assert_eq!(signed.signature, vec![7; 64]);
            assert_eq!(hex::encode(&signed.verifying_key), KEY_ONE_PUBLIC);
            assert_eq!(signed.transaction_type, deployment);
        }
        other => panic!("{:?}", other),
    }

    let action = run.tell(submitted("tx-hash", Some("not-used-for-evm")));
    assert!(matches!(action, InstallAction::Txn(TxnAction::Wait { seconds: 10 })));

    let action = run.tell(InstallEvent::Txn(TxnEvent::DelayElapsed));
    match action {
        InstallAction::Txn(TxnAction::GetEvents { tx_hash, timestamp }) => {
            assert_eq!(tx_hash, "tx-hash");
            assert_eq!(timestamp, 0);
        }
        other => panic!("{:?}", other),
    }

    let event = format!("{{\"topic\":\"deployed\",\"address\":\"0x{}\"}}", ADDRESS);
    let action = run.tell(InstallEvent::Txn(TxnEvent::Events(vec![
        event.into_bytes(),
        b"{\"address\":\"0xffff\"}".to_vec(),
    ])));
    assert!(matches!(action, InstallAction::LoadRegistry));
    assert_eq!(
        run.state(),
        &InstallState::PersistingRegistry {
            phase: InstallPhase::Deploy,
            response_hash: "tx-hash".to_string(),
            address: format!("\"0x{}\"", ADDRESS),
            stored: false,
        }
    );

    let registry =
        stored(run.tell(InstallEvent::RegistryLoaded(L1XVMContractAddressRegistry::new())));
    let entry = registry.l1x_evm.get(&"ft-v1".to_string()).unwrap();
    assert_eq!(entry.deploy_address, format!("\"0x{}\"", ADDRESS));
    assert_eq!(entry.deploy_hash, "tx-hash");
    assert_eq!(registry.l1x_evm.len(), 1);
    assert_eq!(registry.l1x_vm.len(), 0);
    assert_eq!(
        get_toolkit_evm_contract_address_for(&registry, "ft-v1", None),
        Ok(ADDRESS.to_string())
    );

    let action = run.tell(InstallEvent::Persisted);
    assert!(matches!(action, InstallAction::Finish));
    assert_eq!(run.state(), &InstallState::Done { address: ADDRESS.to_string() });

    assert_eq!(run.submissions.len(), 1);
    assert_eq!(run.polls, 1);
    assert_eq!(run.artifact_reads, 1);
}

#[test]
fn ebpf_install_of_a_known_artifact_goes_straight_to_init() {
    let mut run = Run::new(L1XVMType::L1xVmEbpf, false);
    run.tell(InstallEvent::Start);

    let action = run.tell(InstallEvent::RegistryLoaded(registry_with_ebpf(ADDRESS)));
    assert!(matches!(action, InstallAction::Txn(TxnAction::FetchNonce { .. })));
    let init = TransactionType::Init {
        deployed_address: hex::decode(ADDRESS).unwrap(),
        init_args: b"{}".to_vec(),
    };
    assert_eq!(
        run.state(),
        &InstallState::InFlight {
            phase: InstallPhase::Init,
            stage: TxnStage::AwaitingNonce { transaction: init.duplicate() },
        }
    );

    run.tell(InstallEvent::Txn(TxnEvent::Nonce(0)));
    run.tell(InstallEvent::Txn(TxnEvent::Signature(vec![1; 64])));
    run.tell(submitted("init-hash", Some(INSTANCE)));
    run.tell(InstallEvent::Txn(TxnEvent::DelayElapsed));
    let action = run.tell(InstallEvent::Txn(TxnEvent::Events(vec![])));
    assert!(matches!(action, InstallAction::LoadRegistry));

    let registry = stored(run.tell(InstallEvent::RegistryLoaded(registry_with_ebpf(ADDRESS))));
    assert_eq!(
        get_toolkit_ebpf_contract_address_for(&registry, "ft-v1", Some("token-a")),
        Ok(INSTANCE.to_string())
    );
    assert_eq!(
        get_toolkit_ebpf_contract_address_for(&registry, "ft-v1", None),
        Ok(ADDRESS.to_string())
    );
    let entry = registry.l1x_vm.get(&"ft-v1".to_string()).unwrap();
    assert_eq!(entry.deploy_hash, "old-hash");
    assert_eq!(
        entry.instance.get(&"token-a".to_string()).unwrap().inst_address,
        format!("\"0x{}\"", INSTANCE)
    );
    assert_eq!(entry.instance.get(&"token-a".to_string()).unwrap().inst_hash, "init-hash");

    assert!(matches!(run.tell(InstallEvent::Persisted), InstallAction::Finish));
    assert_eq!(run.state(), &InstallState::Done { address: INSTANCE.to_string() });

    assert_eq!(run.submissions, vec![init]);
    assert_eq!(run.artifact_reads, 0);
    assert_eq!(run.polls, 1);
}

#[test]
fn evm_install_of_a_known_artifact_is_done_at_once() {
    let mut run = Run::new(L1XVMType::L1xVmEvm, false);
    run.tell(InstallEvent::Start);
    let action = run.tell(InstallEvent::RegistryLoaded(registry_with_evm(ADDRESS)));
    assert!(matches!(action, InstallAction::Finish));
    assert_eq!(run.state(), &InstallState::Done { address: ADDRESS.to_string() });
    assert!(run.submissions.is_empty());
    assert_eq!(run.artifact_reads, 0);
    assert_eq!(run.polls, 0);
}

#[test]
fn a_forced_install_deploys_what_the_registry_knows() {
    for vm_type in [L1XVMType::L1xVmEvm, L1XVMType::L1xVmEbpf] {
        let mut run = Run::new(vm_type, true);
        run.tell(InstallEvent::Start);
        let registry = match vm_type {
            L1XVMType::L1xVmEvm => registry_with_evm(ADDRESS),
            L1XVMType::L1xVmEbpf => registry_with_ebpf(ADDRESS),
        };
        let action = run.tell(InstallEvent::RegistryLoaded(registry));
        assert!(matches!(action, InstallAction::ReadArtifact { .. }));
        assert_eq!(run.state(), &InstallState::AwaitingArtifact);
    }
}

#[test]
fn an_artifact_in_the_other_table_does_not_count() {
    let mut run = Run::new(L1XVMType::L1xVmEvm, false);
    run.tell(InstallEvent::Start);
    let action = run.tell(InstallEvent::RegistryLoaded(registry_with_ebpf(ADDRESS)));
    assert!(matches!(action, InstallAction::ReadArtifact { .. }));
}

#[test]
fn a_missing_registry_means_that_nothing_is_known() {
    let mut run = Run::new(L1XVMType::L1xVmEbpf, false);
    run.tell(InstallEvent::Start);
    match run.tell(InstallEvent::RegistryUnavailable) {
        InstallAction::ReadArtifact { path } => assert_eq!(path, "/ws/l1x-artifacts/ft-v1"),
        other => panic!("{:?}", other),
    }
}

#[test]
fn ebpf_install_deploys_and_then_initialises() {
    let mut run = Run::new(L1XVMType::L1xVmEbpf, false);
    run.tell(InstallEvent::Start);
    run.tell(InstallEvent::RegistryLoaded(L1XVMContractAddressRegistry::new()));
    let action = run.tell(InstallEvent::ArtifactBinary(vec![0xde, 0xad, 0xbe, 0xef]));
    assert!(matches!(action, InstallAction::Txn(TxnAction::FetchNonce { .. })));
    let deployment = TransactionType::Deployment {
        access_type: AccessType::Private,
        contract_type: ContractType::L1xVm,
        code_bytes: vec![0xde, 0xad, 0xbe, 0xef],
    };

    run.tell(InstallEvent::Txn(TxnEvent::Nonce(41)));
    run.tell(InstallEvent::Txn(TxnEvent::Signature(vec![1; 64])));
    run.tell(submitted("deploy-hash", Some(&format!(" 0x{} ", ADDRESS))));
    run.tell(InstallEvent::Txn(TxnEvent::DelayElapsed));
    let action = run.tell(InstallEvent::Txn(TxnEvent::Events(vec![vec![0xff; 20]])));
    assert!(matches!(action, InstallAction::LoadRegistry));

    let registry = stored(run.tell(InstallEvent::RegistryUnavailable));
    let entry = registry.l1x_vm.get(&"ft-v1".to_string()).unwrap();
    assert_eq!(entry.deploy_address, format!("\"0x{}\"", ADDRESS));
    assert_eq!(entry.deploy_hash, "deploy-hash");
    assert_eq!(entry.instance.len(), 0);

    let action = run.tell(InstallEvent::Persisted);
    assert!(matches!(action, InstallAction::Txn(TxnAction::FetchNonce { .. })));
    let init = TransactionType::Init {
        deployed_address: hex::decode(ADDRESS).unwrap(),
        init_args: vec![0x7b, 0x7d],
    };
    assert_eq!(
        run.state(),
        &InstallState::InFlight {
            phase: InstallPhase::Init,
            stage: TxnStage::AwaitingNonce { transaction: init.duplicate() },
        }
    );

    match run.tell(InstallEvent::Txn(TxnEvent::Nonce(42))) {
        InstallAction::Txn(TxnAction::Sign(unsigned)) => assert_eq!(unsigned.nonce, 43),
        other => panic!("{:?}", other),
    }
    run.tell(InstallEvent::Txn(TxnEvent::Signature(vec![2; 64])));
    run.tell(submitted("init-hash", None));
    run.tell(InstallEvent::Txn(TxnEvent::DelayElapsed));
    let first_event = hex::decode(INSTANCE).unwrap();
    run.tell(InstallEvent::Txn(TxnEvent::Events(vec![first_event, vec![1, 2, 3]])));
    let registry = stored(run.tell(InstallEvent::RegistryLoaded(registry)));
    assert_eq!(
        get_toolkit_ebpf_contract_address_for(&registry, "ft-v1", Some("token-a")),
        Ok(INSTANCE.to_string())
    );
    assert!(matches!(run.tell(InstallEvent::Persisted), InstallAction::Finish));
    assert_eq!(run.state(), &InstallState::Done { address: INSTANCE.to_string() });

    assert_eq!(run.submissions, vec![deployment, init]);
    assert_eq!(run.polls, 2);
    assert_eq!(run.artifact_reads, 1);
}

#[test]
fn a_refused_submission_fails_the_run_and_writes_nothing() {
    let mut run = Run::new(L1XVMType::L1xVmEvm, false);
    run.tell(InstallEvent::Start);
    run.tell(InstallEvent::RegistryUnavailable);
    run.tell(InstallEvent::ArtifactText("6001".to_string()));
    run.tell(InstallEvent::Txn(TxnEvent::Nonce(1)));
    run.tell(InstallEvent::Txn(TxnEvent::Signature(vec![1; 64])));
    let action = run.tell(InstallEvent::Txn(TxnEvent::SubmitFailed("node said no".to_string())));
    assert!(matches!(action, InstallAction::Finish));
    assert_eq!(
        run.state(),
        &InstallState::Failed {
            kind: ErrorKind::Rpc,
            error: L1XVmContractInstallError::new("node said no".to_string()),
        }
    );
    assert!(matches!(run.tell(InstallEvent::Persisted), InstallAction::Finish));
    assert!(matches!(
        run.tell(InstallEvent::RegistryLoaded(L1XVMContractAddressRegistry::new())),
        InstallAction::Finish
    ));
    assert_eq!(run.failed_with(), Some(ErrorKind::Rpc));
}

#[test]
fn no_events_is_a_soft_failure() {
    for vm_type in [L1XVMType::L1xVmEvm, L1XVMType::L1xVmEbpf] {
        let stage = TxnStage::Confirming {
            response: SubmitTransactionResponse { hash: "h".to_string(), contract_address: None },
            delay_elapsed: true,
        };
        let mut run = Run::at(InstallState::InFlight { phase: InstallPhase::Deploy, stage }, vm_type);
        let action = run.tell(InstallEvent::Txn(TxnEvent::Events(vec![])));
        assert!(matches!(action, InstallAction::Finish));
        assert_eq!(run.failed_with(), Some(ErrorKind::Confirmation));
        assert!(run.failed_with().unwrap().is_soft());
    }
}

#[test]
fn evm_event_without_address_is_a_soft_failure() {
    let stage = TxnStage::Confirming {
        response: SubmitTransactionResponse {
            hash: "h".to_string(),
            contract_address: Some(ADDRESS.to_string()),
        },
        delay_elapsed: true,
    };
    let mut run =
        Run::at(InstallState::InFlight { phase: InstallPhase::Deploy, stage }, L1XVMType::L1xVmEvm);
    run.tell(InstallEvent::Txn(TxnEvent::Events(vec![b"{\"other\":1}".to_vec()])));
    assert_eq!(run.failed_with(), Some(ErrorKind::Confirmation));
}

#[test]
fn evm_event_that_is_no_json_is_an_encoding_failure() {
    let stage = TxnStage::Confirming {
        response: SubmitTransactionResponse { hash: "h".to_string(), contract_address: None },
        delay_elapsed: true,
    };
    let mut run =
        Run::at(InstallState::InFlight { phase: InstallPhase::Deploy, stage }, L1XVMType::L1xVmEvm);
    run.tell(InstallEvent::Txn(TxnEvent::Events(vec![vec![0xff, 0x00]])));
    assert_eq!(run.failed_with(), Some(ErrorKind::Encoding));
}

#[test]
fn polling_failure_is_a_hard_failure() {
    let stage = TxnStage::Confirming {
        response: SubmitTransactionResponse { hash: "h".to_string(), contract_address: None },
        delay_elapsed: true,
    };
    let mut run =
        Run::at(InstallState::InFlight { phase: InstallPhase::Deploy, stage }, L1XVMType::L1xVmEbpf);
    run.tell(InstallEvent::Txn(TxnEvent::EventsFailed("timeout".to_string())));
    assert_eq!(run.failed_with(), Some(ErrorKind::Rpc));
    assert!(!ErrorKind::Rpc.is_soft());
}

#[test]
fn an_instance_without_deployment_is_refused() {
    let state = InstallState::PersistingRegistry {
        phase: InstallPhase::Init,
        response_hash: "h".to_string(),
        address: INSTANCE.to_string(),
        stored: false,
    };
    let mut run = Run::at(state, L1XVMType::L1xVmEbpf);
    let action = run.tell(InstallEvent::RegistryLoaded(L1XVMContractAddressRegistry::new()));
    assert!(matches!(action, InstallAction::Finish));
    assert_eq!(
        run.state(),
        &InstallState::Failed {
            kind: ErrorKind::RegistryInvariant,
            error: L1XVmContractInstallError::new(
                "Contract Deploy Info is missing for :: ft-v1".to_string()
            ),
        }
    );
}

#[test]
fn a_registry_that_cannot_be_written_fails_the_run() {
    let state = InstallState::PersistingRegistry {
        phase: InstallPhase::Deploy,
        response_hash: "h".to_string(),
        address: ADDRESS.to_string(),
        stored: true,
    };
    let mut run = Run::at(state, L1XVMType::L1xVmEvm);
    run.tell(InstallEvent::PersistFailed("disk full".to_string()));
    assert_eq!(run.failed_with(), Some(ErrorKind::RegistryIo));
}

#[test]
fn an_artifact_that_is_no_hex_fails_the_run() {
    let mut run = Run::at(InstallState::AwaitingArtifact, L1XVMType::L1xVmEvm);
    let action = run.tell(InstallEvent::ArtifactText("0x60zz".to_string()));
    assert!(matches!(action, InstallAction::Finish));
    assert_eq!(
        run.state(),
        &InstallState::Failed {
            kind: ErrorKind::Encoding,
            error: L1XVmContractInstallError::new(
                "EVM Contract Deploy Failed: Hex File Parse Error".to_string()
            ),
        }
    );
}

#[test]
fn an_artifact_that_cannot_be_read_fails_the_run() {
    let mut run = Run::at(InstallState::AwaitingArtifact, L1XVMType::L1xVmEbpf);
    run.tell(InstallEvent::ArtifactUnavailable("no such file".to_string()));
    assert_eq!(run.failed_with(), Some(ErrorKind::Encoding));
}

#[test]
fn a_cached_address_that_is_no_hex_fails_the_init() {
    let mut run = Run::new(L1XVMType::L1xVmEbpf, false);
    run.tell(InstallEvent::Start);
    let action = run.tell(InstallEvent::RegistryLoaded(registry_with_ebpf("0xabcd")));
    assert!(matches!(action, InstallAction::Finish));
    assert_eq!(run.failed_with(), Some(ErrorKind::Encoding));
}

#[test]
fn nonce_failures() {
    let stage = || TxnStage::AwaitingNonce {
        transaction: TransactionType::Init { deployed_address: vec![1], init_args: vec![] },
    };
    let mut run = Run::at(
        InstallState::InFlight { phase: InstallPhase::Init, stage: stage() },
        L1XVMType::L1xVmEbpf,
    );
    run.tell(InstallEvent::Txn(TxnEvent::NonceFailed("unreachable".to_string())));
    assert_eq!(run.failed_with(), Some(ErrorKind::Rpc));

    let mut run = Run::at(
        InstallState::InFlight { phase: InstallPhase::Init, stage: stage() },
        L1XVMType::L1xVmEbpf,
    );
    run.tell(InstallEvent::Txn(TxnEvent::Nonce(u128::MAX)));
    assert_eq!(run.failed_with(), Some(ErrorKind::Rpc));

    let mut run = Run::at(
        InstallState::InFlight { phase: InstallPhase::Init, stage: stage() },
        L1XVMType::L1xVmEbpf,
    );
    match run.tell(InstallEvent::Txn(TxnEvent::Nonce(u128::MAX - 1))) {
        InstallAction::Txn(TxnAction::Sign(unsigned)) => assert_eq!(unsigned.nonce, u128::MAX),
        other => panic!("{:?}", other),
    }
}

#[test]
fn signing_failure_is_a_signing_error() {
    let mut run = Run::new(L1XVMType::L1xVmEbpf, false);
    run.tell(InstallEvent::Start);
    run.tell(InstallEvent::RegistryUnavailable);
    run.tell(InstallEvent::ArtifactBinary(vec![1]));
    run.tell(InstallEvent::Txn(TxnEvent::Nonce(1)));
    run.tell(InstallEvent::Txn(TxnEvent::SigningFailed("no signer".to_string())));
    assert_eq!(run.failed_with(), Some(ErrorKind::Signing));
}

#[test]
fn reports_that_are_not_awaited_change_nothing() {
    let mut run = Run::new(L1XVMType::L1xVmEvm, false);
    assert!(matches!(run.tell(InstallEvent::Persisted), InstallAction::Unexpected));
    assert_eq!(run.state(), &InstallState::Idle);
    assert!(matches!(
        run.tell(InstallEvent::Txn(TxnEvent::Nonce(1))),
        InstallAction::Unexpected
    ));
    run.tell(InstallEvent::Start);
    assert!(matches!(run.tell(InstallEvent::Start), InstallAction::Unexpected));
    assert_eq!(run.state(), &InstallState::ResolveExisting);
    run.tell(InstallEvent::RegistryUnavailable);
    assert!(matches!(
        run.tell(InstallEvent::ArtifactBinary(vec![1])),
        InstallAction::Unexpected
    ));
    assert_eq!(run.state(), &InstallState::AwaitingArtifact);
    run.tell(InstallEvent::ArtifactText("60".to_string()));
    let before = format!("{:?}", run.state());
    assert!(matches!(
        run.tell(InstallEvent::Txn(TxnEvent::DelayElapsed)),
        InstallAction::Unexpected
    ));
    assert!(matches!(
        run.tell(InstallEvent::Txn(TxnEvent::Events(vec![]))),
        InstallAction::Unexpected
    ));
    assert!(matches!(run.tell(InstallEvent::Start), InstallAction::Unexpected));
    assert_eq!(format!("{:?}", run.state()), before);
}

#[test]
fn events_are_not_polled_before_the_delay_has_passed() {
    let stage = TxnStage::Confirming {
        response: SubmitTransactionResponse { hash: "h".to_string(), contract_address: None },
        delay_elapsed: false,
    };
    let mut run =
        Run::at(InstallState::InFlight { phase: InstallPhase::Deploy, stage }, L1XVMType::L1xVmEbpf);
    let action = run.tell(InstallEvent::Txn(TxnEvent::Events(vec![vec![1]])));
    assert!(matches!(action, InstallAction::Unexpected));
    assert!(matches!(run.state(), InstallState::InFlight { .. }));
}

#[test]
fn settings_check_the_key() {
    let bad = L1XVmContractInstallInternal::new(
        "/ws".to_string(),
        "/scripts".to_string(),
        "nothex".to_string(),
    );
    assert_eq!(bad.err(), Some(SubmitRequestError::KeyNotHex));
    let zero = L1XVmContractInstallInternal::new(
        "/ws".to_string(),
        "/scripts".to_string(),
        "00".repeat(32),
    );
    assert_eq!(zero.err(), Some(SubmitRequestError::KeyRejected));
    let good = settings();
    assert_eq!(good.cfg_ws_home, "/ws");
    assert_eq!(good.cfg_cli_scripts_base, "/scripts");
    assert_eq!(good.private_key, KEY_ONE);
    assert_eq!(hex::encode(good.secret_key.verifying_key()), KEY_ONE_PUBLIC);
}

#[test]
fn installer_starts_the_three_transactions() {
    let settings = settings();
    let cmd = command(L1XVMType::L1xVmEbpf, false);
    let installer = L1XVmContractInstaller::new(&cmd, &settings);

    match installer.l1x_ebpf_deploy_contract(vec![1, 2]) {
        TxnStep::Next { stage, action } => {
            assert_eq!(
                stage,
                TxnStage::AwaitingNonce {
                    transaction: TransactionType::Deployment {
                        access_type: AccessType::Private,
                        contract_type: ContractType::L1xVm,
                        code_bytes: vec![1, 2],
                    }
                }
            );
            assert_eq!(
                action,
                TxnAction::FetchNonce { verifying_key: hex::decode(KEY_ONE_PUBLIC).unwrap() }
            );
        }
        other => panic!("{:?}", other),
    }
    match installer.l1x_evm_deploy_contract(" \"0xAB\" ") {
        TxnStep::Next { stage, .. } => assert_eq!(
            stage,
            TxnStage::AwaitingNonce {
                transaction: TransactionType::Deployment {
                    access_type: AccessType::Public,
                    contract_type: ContractType::Evm,
                    code_bytes: vec![0xab],
                }
            }
        ),
        other => panic!("{:?}", other),
    }
    match installer.l1x_ebpf_init_contract("0a0b") {
        TxnStep::Next { stage, .. } => assert_eq!(
            stage,
            TxnStage::AwaitingNonce {
                transaction: TransactionType::Init {
                    deployed_address: vec![0x0a, 0x0b],
                    init_args: vec![0x7b, 0x7d],
                }
            }
        ),
        other => panic!("{:?}", other),
    }
    assert_eq!(
        installer.l1x_ebpf_init_contract("0x0a0b"),
        TxnStep::Failed {
            kind: ErrorKind::Encoding,
            message: "eBPF Contract Init Failed: the deploy address is no hex".to_string(),
        }
    );
}

#[test]
fn the_step_of_one_vm_can_be_asked_for_by_name() {
    let settings = settings();
    let cmd = command(L1XVMType::L1xVmEbpf, false);
    let (state, action) = cmd.l1x_evm_install_contract(
        &settings,
        InstallState::ResolveExisting,
        InstallEvent::RegistryLoaded(registry_with_evm(ADDRESS)),
    );
    assert_eq!(state, InstallState::Done { address: ADDRESS.to_string() });
    assert!(matches!(action, InstallAction::Finish));
    let cmd = command(L1XVMType::L1xVmEvm, false);
    let (state, action) = cmd.l1x_ebpf_install_contract(
        &settings,
        InstallState::ResolveExisting,
        InstallEvent::RegistryLoaded(registry_with_ebpf(ADDRESS)),
    );
    assert!(matches!(state, InstallState::InFlight { phase: InstallPhase::Init, .. }));
    assert!(matches!(action, InstallAction::Txn(TxnAction::FetchNonce { .. })));
}

#[test]
fn vm_type_names() {
    assert_eq!(L1XVMType::L1xVmEbpf.name(), "L1xVmEbpf");
    assert_eq!(L1XVMType::L1xVmEvm.name(), "L1xVmEvm");
    let error = L1XVmContractInstallError::new("went wrong".to_string());
    assert_eq!(error.message(), "went wrong");
}
