use l1x_forge::strmap::StringMap;
use l1x_forge::toolkit_config::{
    get_active_chain_json_rpc_endpoint, get_toolkit_ebpf_contract_address_for,
    get_toolkit_evm_contract_address_for, get_wallet_priv_key,
    update_toolkit_contract_address_registry, DevAccount, L1XVMContractAddressRegistry,
    L1XVMContractAddressUpdateType, Network, NetworkConfig, RegistryInvariantError,
    RegistryLookupError, WalletConfig,
};

fn ebpf_deploy(artifact: &str, hash: &str, address: &str) -> L1XVMContractAddressUpdateType {
    L1XVMContractAddressUpdateType::L1XEBPF_DEPLOY {
        artifact_id: artifact.to_string(),
        response_hash: hash.to_string(),
        response_address: address.to_string(),
    }
}

fn ebpf_init(
    artifact: &str,
    contract: &str,
    hash: &str,
    address: &str,
) -> L1XVMContractAddressUpdateType {
    L1XVMContractAddressUpdateType::L1XEBPF_INIT {
        artifact_id: artifact.to_string(),
        contract_id: contract.to_string(),
        response_hash: hash.to_string(),
        response_address: address.to_string(),
    }
}

fn evm_deploy(artifact: &str, hash: &str, address: &str) -> L1XVMContractAddressUpdateType {
    L1XVMContractAddressUpdateType::L1XEVM_DEPLOY {
        artifact_id: artifact.to_string(),
        response_hash: hash.to_string(),
        response_address: address.to_string(),
    }
}

#[test]
fn string_map_starts_empty() {
    let map: StringMap<String> = StringMap::new();
    assert_eq!(map.len(), 0);
    assert_eq!(map.get(&"a".to_string()), None);
    assert!(!map.contains_key(&"a".to_string()));
}

#[test]
fn string_map_insert_then_get() {
    let mut map: StringMap<String> = StringMap::new();
    assert_eq!(map.insert("a".to_string(), "1".to_string()), None);
    assert_eq!(map.insert("b".to_string(), "2".to_string()), None);
    assert_eq!(map.len(), 2);
    assert_eq!(map.get(&"a".to_string()), Some(&"1".to_string()));
    assert_eq!(map.get(&"b".to_string()), Some(&"2".to_string()));
    assert_eq!(map.get(&"c".to_string()), None);
    assert!(map.contains_key(&"b".to_string()));
}

#[test]
fn string_map_replaces_in_place_and_hands_back_the_old_value() {
    let mut map: StringMap<String> = StringMap::new();
    map.insert("a".to_string(), "1".to_string());
    map.insert("b".to_string(), "2".to_string());
    map.insert("c".to_string(), "3".to_string());
    assert_eq!(map.insert("b".to_string(), "two".to_string()), Some("2".to_string()));
    assert_eq!(map.len(), 3);
    assert_eq!(map.key_at(0), "a");
    assert_eq!(map.key_at(1), "b");
    assert_eq!(map.key_at(2), "c");
    assert_eq!(map.value_at(1), "two");
    assert_eq!(map.get(&"b".to_string()), Some(&"two".to_string()));
}

#[test]
fn string_map_keys_differ_by_case_and_by_blanks() {
    let mut map: StringMap<String> = StringMap::new();
    map.insert("a".to_string(), "1".to_string());
    map.insert("A".to_string(), "2".to_string());
    map.insert("a ".to_string(), "3".to_string());
    map.insert("".to_string(), "4".to_string());
    assert_eq!(map.len(), 4);
    assert_eq!(map.get(&"".to_string()), Some(&"4".to_string()));
}

#[test]
fn new_registry_knows_nothing() {
    let registry = L1XVMContractAddressRegistry::new();
    assert_eq!(registry.l1x_vm.len(), 0);
    assert_eq!(registry.l1x_evm.len(), 0);
    assert_eq!(
        get_toolkit_ebpf_contract_address_for(&registry, "ft-v1", None),
        Err(RegistryLookupError::ArtifactNotFound)
    );
    assert_eq!(
        get_toolkit_evm_contract_address_for(&registry, "ft-v1", None),
        Err(RegistryLookupError::ArtifactNotFound)
    );
}

#[test]
fn ebpf_deploy_is_stored_quoted_and_reads_back_bare() {
    let mut registry = L1XVMContractAddressRegistry::new();
    let done = update_toolkit_contract_address_registry(
        &mut registry,
        ebpf_deploy("ft-v1", "hash-1", "00aa11"),
    );
    assert_eq!(done, Ok(()));
    let info = registry.l1x_vm.get(&"ft-v1".to_string()).unwrap();
    assert_eq!(info.deploy_hash, "hash-1");
    assert_eq!(info.deploy_address, "\"0x00aa11\"");
    assert_eq!(info.instance.len(), 0);
    assert_eq!(
        get_toolkit_ebpf_contract_address_for(&registry, "ft-v1", None),
        Ok("00aa11".to_string())
    );
    assert_eq!(registry.l1x_evm.len(), 0);
}

#[test]
fn ebpf_init_is_stored_under_its_artifact() {
    let mut registry = L1XVMContractAddressRegistry::new();
    update_toolkit_contract_address_registry(&mut registry, ebpf_deploy("ft-v1", "h1", "aa"))
        .unwrap();
    let done = update_toolkit_contract_address_registry(
        &mut registry,
        ebpf_init("ft-v1", "token-a", "h2", "bb"),
    );
    assert_eq!(done, Ok(()));
    let info = registry.l1x_vm.get(&"ft-v1".to_string()).unwrap();
    assert_eq!(info.deploy_hash, "h1");
    assert_eq!(info.deploy_address, "\"0xaa\"");
    let instance = info.instance.get(&"token-a".to_string()).unwrap();
    assert_eq!(instance.inst_hash, "h2");
    assert_eq!(instance.inst_address, "\"0xbb\"");
    assert_eq!(
        get_toolkit_ebpf_contract_address_for(&registry, "ft-v1", Some("token-a")),
        Ok("bb".to_string())
    );
    assert_eq!(
        get_toolkit_ebpf_contract_address_for(&registry, "ft-v1", None),
        Ok("aa".to_string())
    );
    assert_eq!(
        get_toolkit_ebpf_contract_address_for(&registry, "ft-v1", Some("token-b")),
        Err(RegistryLookupError::InstanceNotFound)
    );
    assert_eq!(
        get_toolkit_ebpf_contract_address_for(&registry, "ft-v2", Some("token-a")),
        Err(RegistryLookupError::ArtifactNotFound)
    );
}

#[test]
fn ebpf_init_without_deployment_is_refused_and_changes_nothing() {
    let mut registry = L1XVMContractAddressRegistry::new();
    update_toolkit_contract_address_registry(&mut registry, ebpf_deploy("other", "h1", "aa"))
        .unwrap();
    update_toolkit_contract_address_registry(&mut registry, evm_deploy("ft-v1", "h0", "cc"))
        .unwrap();
    let refused = update_toolkit_contract_address_registry(
        &mut registry,
        ebpf_init("ft-v1", "token-a", "h2", "bb"),
    );
    assert_eq!(refused, Err(RegistryInvariantError { artifact_id: "ft-v1".to_string() }));
    assert_eq!(registry.l1x_vm.len(), 1);
    assert_eq!(registry.l1x_evm.len(), 1);
    let other = registry.l1x_vm.get(&"other".to_string()).unwrap();
    assert_eq!(other.deploy_address, "\"0xaa\"");
    assert_eq!(other.instance.len(), 0);
    assert!(!registry.l1x_vm.contains_key(&"ft-v1".to_string()));
}

#[test]
fn ebpf_init_replaces_an_instance_of_the_same_contract_id() {
    let mut registry = L1XVMContractAddressRegistry::new();
    update_toolkit_contract_address_registry(&mut registry, ebpf_deploy("ft-v1", "h1", "aa"))
        .unwrap();
    update_toolkit_contract_address_registry(&mut registry, ebpf_init("ft-v1", "c", "h2", "bb"))
        .unwrap();
    update_toolkit_contract_address_registry(&mut registry, ebpf_init("ft-v1", "d", "h3", "cc"))
        .unwrap();
    update_toolkit_contract_address_registry(&mut registry, ebpf_init("ft-v1", "c", "h4", "dd"))
        .unwrap();
    let info = registry.l1x_vm.get(&"ft-v1".to_string()).unwrap();
    assert_eq!(info.instance.len(), 2);
    assert_eq!(
        get_toolkit_ebpf_contract_address_for(&registry, "ft-v1", Some("c")),
        Ok("dd".to_string())
    );
    assert_eq!(
        get_toolkit_ebpf_contract_address_for(&registry, "ft-v1", Some("d")),
        Ok("cc".to_string())
    );
}

#[test]
fn ebpf_redeploy_drops_the_instances() {
    let mut registry = L1XVMContractAddressRegistry::new();
    update_toolkit_contract_address_registry(&mut registry, ebpf_deploy("ft-v1", "h1", "aa"))
        .unwrap();
    update_toolkit_contract_address_registry(&mut registry, ebpf_init("ft-v1", "c", "h2", "bb"))
        .unwrap();
    update_toolkit_contract_address_registry(&mut registry, ebpf_deploy("ft-v1", "h3", "ee"))
        .unwrap();
    assert_eq!(registry.l1x_vm.len(), 1);
    assert_eq!(
        get_toolkit_ebpf_contract_address_for(&registry, "ft-v1", None),
        Ok("ee".to_string())
    );
    assert_eq!(
        get_toolkit_ebpf_contract_address_for(&registry, "ft-v1", Some("c")),
        Err(RegistryLookupError::InstanceNotFound)
    );
}

#[test]
fn evm_deploy_cleans_the_address_before_it_is_stored() {
    let mut registry = L1XVMContractAddressRegistry::new();
    update_toolkit_contract_address_registry(
        &mut registry,
        evm_deploy("ft-v1", "h1", " \"0xAbCd\" "),
    )
    .unwrap();
    let info = registry.l1x_evm.get(&"ft-v1".to_string()).unwrap();
    assert_eq!(info.deploy_hash, "h1");
    assert_eq!(info.deploy_address, "\"0xAbCd\"");
    assert_eq!(
        get_toolkit_evm_contract_address_for(&registry, "ft-v1", None),
        Ok("AbCd".to_string())
    );
    assert_eq!(
        get_toolkit_evm_contract_address_for(&registry, "ft-v1", Some("ignored")),
        Ok("AbCd".to_string())
    );
    assert_eq!(registry.l1x_vm.len(), 0);
}

#[test]
fn the_two_tables_are_independent() {
    let mut registry = L1XVMContractAddressRegistry::new();
    update_toolkit_contract_address_registry(&mut registry, evm_deploy("ft-v1", "h1", "aa"))
        .unwrap();
    assert_eq!(
        get_toolkit_ebpf_contract_address_for(&registry, "ft-v1", None),
        Err(RegistryLookupError::ArtifactNotFound)
    );
    update_toolkit_contract_address_registry(&mut registry, ebpf_deploy("ft-v1", "h2", "bb"))
        .unwrap();
    assert_eq!(
        get_toolkit_evm_contract_address_for(&registry, "ft-v1", None),
        Ok("aa".to_string())
    );
    assert_eq!(
        get_toolkit_ebpf_contract_address_for(&registry, "ft-v1", None),
        Ok("bb".to_string())
    );
}

#[test]
fn an_ebpf_address_loses_the_quotes_at_its_end_on_the_way_back() {
    let mut registry = L1XVMContractAddressRegistry::new();
    update_toolkit_contract_address_registry(&mut registry, ebpf_deploy("ft-v1", "h1", "ab\"\""))
        .unwrap();
    assert_eq!(
        get_toolkit_ebpf_contract_address_for(&registry, "ft-v1", None),
        Ok("ab".to_string())
    );
    update_toolkit_contract_address_registry(&mut registry, ebpf_deploy("ft-v2", "h1", " 0xab "))
        .unwrap();
    assert_eq!(
        get_toolkit_ebpf_contract_address_for(&registry, "ft-v2", None),
        Ok(" 0xab ".to_string())
    );
}

#[test]
fn an_update_leaves_other_artifacts_alone() {
    let mut registry = L1XVMContractAddressRegistry::new();
    update_toolkit_contract_address_registry(&mut registry, ebpf_deploy("a", "h1", "01")).unwrap();
    update_toolkit_contract_address_registry(&mut registry, ebpf_init("a", "c", "h2", "02"))
        .unwrap();
    update_toolkit_contract_address_registry(&mut registry, ebpf_deploy("b", "h3", "03")).unwrap();
    update_toolkit_contract_address_registry(&mut registry, ebpf_init("b", "c", "h4", "04"))
        .unwrap();
    assert_eq!(get_toolkit_ebpf_contract_address_for(&registry, "a", None), Ok("01".to_string()));
    assert_eq!(
        get_toolkit_ebpf_contract_address_for(&registry, "a", Some("c")),
        Ok("02".to_string())
    );
    assert_eq!(registry.l1x_vm.key_at(0), "a");
    assert_eq!(registry.l1x_vm.key_at(1), "b");
}

#[test]
fn wallet_and_network_lookups() {
    let mut dev_accounts: StringMap<DevAccount> = StringMap::new();
    dev_accounts.insert(
        "ava".to_string(),
        DevAccount { priv_key: "11".to_string(), pub_key: "22".to_string() },
    );
    dev_accounts.insert(
        "bobby".to_string(),
        DevAccount { priv_key: "33".to_string(), pub_key: "44".to_string() },
    );
    let wallet = WalletConfig { dev_accounts };
    assert!(wallet.dev_accounts.contains_key(&"bobby".to_string()));
    assert_eq!(get_wallet_priv_key(&wallet, "bobby"), "33");
    assert_eq!(get_wallet_priv_key(&wallet, "ava"), "11");

    let mut networks: StringMap<Network> = StringMap::new();
    networks.insert(
        "local_devnet".to_string(),
        Network {
            chain_id: 1,
            host_ip: "127.0.0.1".to_string(),
            rpc_port: 50051,
            rpc_endpoint: "http://127.0.0.1:50051".to_string(),
        },
    );
    let config = NetworkConfig { networks };
    assert_eq!(
        get_active_chain_json_rpc_endpoint(&config, "local_devnet"),
        "http://127.0.0.1:50051"
    );
}
