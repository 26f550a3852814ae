//! The toolkit's configuration values and its contract address registry.
//!
//! The registry remembers, for each artifact, where it was deployed, and for
//! each contract instance of an eBPF artifact, where it was initialised. It is
//! the only record of what has been deployed: nothing is inferred from the
//! chain. The values here are plain data; reading and writing the files that
//! persist them is the caller's business.

use crate::strmap::StringMap;
use crate::text::{clean_address_string, normalize, only, trim_end_by, trim_start_by};
use vstd::prelude::*;

verus! {

/// A developer account of the wallet file.
#[derive(Clone, Debug, PartialEq)]
pub struct DevAccount {
    pub priv_key: String,
    pub pub_key: String,
}

pub struct DevAccountModel {
    pub priv_key: Seq<char>,
    pub pub_key: Seq<char>,
}

impl View for DevAccount {
    type V = DevAccountModel;

    open spec fn view(&self) -> DevAccountModel {
        DevAccountModel { priv_key: self.priv_key@, pub_key: self.pub_key@ }
    }
}

/// The wallet file: developer accounts by owner name.
#[derive(Debug)]
pub struct WalletConfig {
    pub dev_accounts: StringMap<DevAccount>,
}

/// One chain of the network file.
#[derive(Clone, Debug, PartialEq)]
pub struct Network {
    pub chain_id: u32,
    pub host_ip: String,
    pub rpc_port: u32,
    pub rpc_endpoint: String,
}

pub struct NetworkModel {
    pub chain_id: u32,
    pub host_ip: Seq<char>,
    pub rpc_port: u32,
    pub rpc_endpoint: Seq<char>,
}

impl View for Network {
    type V = NetworkModel;

    open spec fn view(&self) -> NetworkModel {
        NetworkModel {
            chain_id: self.chain_id,
            host_ip: self.host_ip@,
            rpc_port: self.rpc_port,
            rpc_endpoint: self.rpc_endpoint@,
        }
    }
}

/// The network file: chains by chain type.
#[derive(Debug)]
pub struct NetworkConfig {
    pub networks: StringMap<Network>,
}

/// The JSON-RPC endpoint of the chain named `chain_type`.
pub fn get_active_chain_json_rpc_endpoint(config: &NetworkConfig, chain_type: &str) -> (endpoint:
    String)
    requires
        config.networks@.contains_key(chain_type@),
    ensures
        endpoint@ == config.networks@[chain_type@].rpc_endpoint,
{
    let key = chain_type.to_owned();
    match config.networks.get(&key) {
        Some(network) => network.rpc_endpoint.clone(),
        None => String::new(),
    }
}

/// The private key, as hex text, of the developer account `owner_id`.
pub fn get_wallet_priv_key(config: &WalletConfig, owner_id: &str) -> (priv_key: String)
    requires
        config.dev_accounts@.contains_key(owner_id@),
    ensures
        priv_key@ == config.dev_accounts@[owner_id@].priv_key,
{
    let key = owner_id.to_owned();
    match config.dev_accounts.get(&key) {
        Some(account) => account.priv_key.clone(),
        None => String::new(),
    }
}

/// One confirmed deployment or initialisation to record.
#[allow(non_camel_case_types)]
#[derive(Debug)]
pub enum L1XVMContractAddressUpdateType {
    L1XEBPF_DEPLOY { artifact_id: String, response_hash: String, response_address: String },
    L1XEBPF_INIT {
        artifact_id: String,
        contract_id: String,
        response_hash: String,
        response_address: String,
    },
    L1XEVM_DEPLOY { artifact_id: String, response_hash: String, response_address: String },
}

pub enum UpdateModel {
    EbpfDeploy { artifact_id: Seq<char>, response_hash: Seq<char>, response_address: Seq<char> },
    EbpfInit {
        artifact_id: Seq<char>,
        contract_id: Seq<char>,
        response_hash: Seq<char>,
        response_address: Seq<char>,
    },
    EvmDeploy { artifact_id: Seq<char>, response_hash: Seq<char>, response_address: Seq<char> },
}

impl View for L1XVMContractAddressUpdateType {
    type V = UpdateModel;

    open spec fn view(&self) -> UpdateModel {
        match self {
            L1XVMContractAddressUpdateType::L1XEBPF_DEPLOY {
                artifact_id,
                response_hash,
                response_address,
            } => UpdateModel::EbpfDeploy {
                artifact_id: artifact_id@,
                response_hash: response_hash@,
                response_address: response_address@,
            },
            L1XVMContractAddressUpdateType::L1XEBPF_INIT {
                artifact_id,
                contract_id,
                response_hash,
                response_address,
            } => UpdateModel::EbpfInit {
                artifact_id: artifact_id@,
                contract_id: contract_id@,
                response_hash: response_hash@,
                response_address: response_address@,
            },
            L1XVMContractAddressUpdateType::L1XEVM_DEPLOY {
                artifact_id,
                response_hash,
                response_address,
            } => UpdateModel::EvmDeploy {
                artifact_id: artifact_id@,
                response_hash: response_hash@,
                response_address: response_address@,
            },
        }
    }
}

/// Where one contract instance of an eBPF artifact was initialised.
#[derive(Debug, PartialEq)]
pub struct L1XVMInstanceInfo {
    pub inst_hash: String,
    pub inst_address: String,
}

pub struct InstanceModel {
    pub inst_hash: Seq<char>,
    pub inst_address: Seq<char>,
}

impl View for L1XVMInstanceInfo {
    type V = InstanceModel;

    open spec fn view(&self) -> InstanceModel {
        InstanceModel { inst_hash: self.inst_hash@, inst_address: self.inst_address@ }
    }
}

/// Where an eBPF artifact was deployed, and its instances by contract id.
#[derive(Debug)]
pub struct L1XVMContractInfo {
    pub deploy_hash: String,
    pub deploy_address: String,
    pub instance: StringMap<L1XVMInstanceInfo>,
}

pub struct ContractModel {
    pub deploy_hash: Seq<char>,
    pub deploy_address: Seq<char>,
    pub instance: Map<Seq<char>, InstanceModel>,
}

impl View for L1XVMContractInfo {
    type V = ContractModel;

    open spec fn view(&self) -> ContractModel {
        ContractModel {
            deploy_hash: self.deploy_hash@,
            deploy_address: self.deploy_address@,
            instance: self.instance@,
        }
    }
}

/// Where an EVM artifact was deployed. EVM contracts are not initialised
/// separately, so there are no instances.
#[derive(Debug, PartialEq)]
pub struct L1XEvmContractInfo {
    pub deploy_hash: String,
    pub deploy_address: String,
}

pub struct EvmContractModel {
    pub deploy_hash: Seq<char>,
    pub deploy_address: Seq<char>,
}

impl View for L1XEvmContractInfo {
    type V = EvmContractModel;

    open spec fn view(&self) -> EvmContractModel {
        EvmContractModel { deploy_hash: self.deploy_hash@, deploy_address: self.deploy_address@ }
    }
}

/// The registry: two independent tables keyed by artifact id.
///
/// An instance lives inside the entry of its artifact, so none can exist
/// without the deployment it belongs to.
#[derive(Debug)]
pub struct L1XVMContractAddressRegistry {
    pub l1x_vm: StringMap<L1XVMContractInfo>,
    pub l1x_evm: StringMap<L1XEvmContractInfo>,
}

pub struct RegistryModel {
    pub l1x_vm: Map<Seq<char>, ContractModel>,
    pub l1x_evm: Map<Seq<char>, EvmContractModel>,
}

impl View for L1XVMContractAddressRegistry {
    type V = RegistryModel;

    open spec fn view(&self) -> RegistryModel {
        RegistryModel { l1x_vm: self.l1x_vm@, l1x_evm: self.l1x_evm@ }
    }
}

/// Why a lookup found no address.
#[derive(Clone, Copy, Debug, PartialEq, Eq, Structural)]
pub enum RegistryLookupError {
    /// The artifact has no entry in the table that was asked.
    ArtifactNotFound,
    /// The artifact is deployed, but has no instance of that contract id.
    InstanceNotFound,
}

/// An instance was to be recorded for an artifact that has no deployment.
#[derive(Debug, PartialEq)]
pub struct RegistryInvariantError {
    pub artifact_id: String,
}

/// The persisted form of an address: `0x` and the address, in double quotes.
pub open spec fn quoted_address(address: Seq<char>) -> Seq<char> {
    seq!['"', '0', 'x'] + address + seq!['"']
}

/// The address recorded for an eBPF artifact, or for one of its instances
/// when a contract id is given, in bare form.
pub open spec fn lookup_ebpf(
    registry: RegistryModel,
    artifact_id: Seq<char>,
    contract_id: Option<Seq<char>>,
) -> Result<Seq<char>, RegistryLookupError> {
    if !registry.l1x_vm.contains_key(artifact_id) {
        Err(RegistryLookupError::ArtifactNotFound)
    } else {
        let info = registry.l1x_vm[artifact_id];
        match contract_id {
            None => Ok(normalize(info.deploy_address)),
            Some(contract_id) => if info.instance.contains_key(contract_id) {
                Ok(normalize(info.instance[contract_id].inst_address))
            } else {
                Err(RegistryLookupError::InstanceNotFound)
            },
        }
    }
}

/// The address recorded for an EVM artifact, in bare form.
pub open spec fn lookup_evm(registry: RegistryModel, artifact_id: Seq<char>) -> Result<
    Seq<char>,
    RegistryLookupError,
> {
    if registry.l1x_evm.contains_key(artifact_id) {
        Ok(normalize(registry.l1x_evm[artifact_id].deploy_address))
    } else {
        Err(RegistryLookupError::ArtifactNotFound)
    }
}

/// The registry after `update`, or `None` where the update records an
/// instance for an artifact without a deployment.
///
/// A deployment replaces the artifact's whole entry, instances included.
pub open spec fn apply_update(registry: RegistryModel, update: UpdateModel) -> Option<
    RegistryModel,
> {
    match update {
        UpdateModel::EbpfDeploy { artifact_id, response_hash, response_address } => Some(
            RegistryModel {
                l1x_vm: registry.l1x_vm.insert(
                    artifact_id,
                    ContractModel {
                        deploy_hash: response_hash,
                        deploy_address: quoted_address(response_address),
                        instance: Map::empty(),
                    },
                ),
                ..registry
            },
        ),
        UpdateModel::EbpfInit { artifact_id, contract_id, response_hash, response_address } => {
            if registry.l1x_vm.contains_key(artifact_id) {
                let info = registry.l1x_vm[artifact_id];
                Some(
                    RegistryModel {
                        l1x_vm: registry.l1x_vm.insert(
                            artifact_id,
                            ContractModel {
                                instance: info.instance.insert(
                                    contract_id,
                                    InstanceModel {
                                        inst_hash: response_hash,
                                        inst_address: quoted_address(response_address),
                                    },
                                ),
                                ..info
                            },
                        ),
                        ..registry
                    },
                )
            } else {
                None
            }
        },
        UpdateModel::EvmDeploy { artifact_id, response_hash, response_address } => Some(
            RegistryModel {
                l1x_evm: registry.l1x_evm.insert(
                    artifact_id,
                    EvmContractModel {
                        deploy_hash: response_hash,
                        deploy_address: quoted_address(normalize(response_address)),
                    },
                ),
                ..registry
            },
        ),
    }
}

/// The views of an optional text and of a lookup's outcome.
pub open spec fn option_text(text: Option<&str>) -> Option<Seq<char>> {
    match text {
        Some(t) => Some(t@),
        None => None,
    }
}

pub open spec fn lookup_view(outcome: Result<String, RegistryLookupError>) -> Result<
    Seq<char>,
    RegistryLookupError,
> {
    match outcome {
        Ok(address) => Ok(address@),
        Err(error) => Err(error),
    }
}

/// `"0x<address>"`, quotes included.
fn quote_address(address: &str) -> (quoted: String)
    ensures
        quoted@ == quoted_address(address@),
{
    proof {
        reveal_strlit("\"0x");
        reveal_strlit("\"");
    }
    let mut quoted = "\"0x".to_owned();
    quoted.append(address);
    quoted.append("\"");
    assert(quoted@ =~= quoted_address(address@));
    quoted
}

impl L1XVMContractAddressRegistry {
    /// A registry with two empty tables.
    pub fn new() -> (registry: Self)
        ensures
            registry@.l1x_vm == Map::<Seq<char>, ContractModel>::empty(),
            registry@.l1x_evm == Map::<Seq<char>, EvmContractModel>::empty(),
    {
        L1XVMContractAddressRegistry { l1x_vm: StringMap::new(), l1x_evm: StringMap::new() }
    }
}

/// The eBPF address recorded for `artifact_id`: the deployment's, or with a
/// contract id that instance's.
pub fn get_toolkit_ebpf_contract_address_for(
    registry: &L1XVMContractAddressRegistry,
    artifact_id: &str,
    contract_id: Option<&str>,
) -> (found: Result<String, RegistryLookupError>)
    ensures
        lookup_view(found) == lookup_ebpf(registry@, artifact_id@, option_text(contract_id)),
{
    let artifact_key = artifact_id.to_owned();
    match registry.l1x_vm.get(&artifact_key) {
        Some(contract_info) => match contract_id {
            Some(cid) => {
                let contract_key = cid.to_owned();
                match contract_info.instance.get(&contract_key) {
                    Some(contract_instance_info) => Ok(
                        clean_address_string(contract_instance_info.inst_address.as_str()),
                    ),
                    None => Err(RegistryLookupError::InstanceNotFound),
                }
            },
            None => Ok(clean_address_string(contract_info.deploy_address.as_str())),
        },
        None => Err(RegistryLookupError::ArtifactNotFound),
    }
}

/// The EVM address recorded for `artifact_id`. EVM artifacts have no
/// instances: a contract id is accepted and plays no part.
pub fn get_toolkit_evm_contract_address_for(
    registry: &L1XVMContractAddressRegistry,
    artifact_id: &str,
    contract_id: Option<&str>,
) -> (found: Result<String, RegistryLookupError>)
    ensures
        lookup_view(found) == lookup_evm(registry@, artifact_id@),
{
    let artifact_key = artifact_id.to_owned();
    match registry.l1x_evm.get(&artifact_key) {
        Some(contract_info) => Ok(clean_address_string(contract_info.deploy_address.as_str())),
        None => Err(RegistryLookupError::ArtifactNotFound),
    }
}

/// Records one confirmed deployment or initialisation.
///
/// Recording an instance for an artifact that has no deployment is refused,
/// and the registry is then left as it was.
pub fn update_toolkit_contract_address_registry(
    registry: &mut L1XVMContractAddressRegistry,
    update_type: L1XVMContractAddressUpdateType,
) -> (outcome: Result<(), RegistryInvariantError>)
    ensures
        outcome is Ok == apply_update(old(registry)@, update_type@) is Some,
        outcome is Ok ==> Some(final(registry)@) == apply_update(old(registry)@, update_type@),
        outcome matches Err(error) ==> {
            &&& *final(registry) == *old(registry)
            &&& update_type@ matches UpdateModel::EbpfInit { artifact_id, .. }
            &&& error.artifact_id@ == artifact_id
        },
{
    match update_type {
        L1XVMContractAddressUpdateType::L1XEBPF_DEPLOY {
            artifact_id,
            response_hash,
            response_address,
        } => {
            let contract_info = L1XVMContractInfo {
                deploy_hash: response_hash,
                deploy_address: quote_address(response_address.as_str()),
                instance: StringMap::new(),
            };
            registry.l1x_vm.insert(artifact_id, contract_info);
            Ok(())
        },
        L1XVMContractAddressUpdateType::L1XEBPF_INIT {
            artifact_id,
            contract_id,
            response_hash,
            response_address,
        } => {
            if !registry.l1x_vm.contains_key(&artifact_id) {
                return Err(RegistryInvariantError { artifact_id });
            }
            let instance_info = L1XVMInstanceInfo {
                inst_hash: response_hash,
                inst_address: quote_address(response_address.as_str()),
            };
            let vacant = L1XVMContractInfo {
                deploy_hash: String::new(),
                deploy_address: String::new(),
                instance: StringMap::new(),
            };
            match registry.l1x_vm.insert(artifact_id.clone(), vacant) {
                Some(mut contract_info) => {
                    contract_info.instance.insert(contract_id, instance_info);
                    registry.l1x_vm.insert(artifact_id, contract_info);
                    assert(final(registry)@.l1x_vm =~= apply_update(
                        old(registry)@,
                        update_type@,
                    )->0.l1x_vm);
                    Ok(())
                },
                None => Ok(()),
            }
        },
        L1XVMContractAddressUpdateType::L1XEVM_DEPLOY {
            artifact_id,
            response_hash,
            response_address,
        } => {
            let response_address_clean = clean_address_string(response_address.as_str());
            let contract_info = L1XEvmContractInfo {
                deploy_hash: response_hash,
                deploy_address: quote_address(response_address_clean.as_str()),
            };
            registry.l1x_evm.insert(artifact_id, contract_info);
            Ok(())
        },
    }
}

/// Trimming the end of a text stops at a prefix whose last character stays.
proof fn lemma_trim_end_behind_prefix(
    prefix: Seq<char>,
    rest: Seq<char>,
    strip: spec_fn(char) -> bool,
)
    requires
        prefix.len() > 0,
        !strip(prefix.last()),
    ensures
        trim_end_by(prefix + rest, strip) == prefix + trim_end_by(rest, strip),
    decreases rest.len(),
{
    let whole = prefix + rest;
    if rest.len() == 0 {
        assert(whole =~= prefix);
        assert(prefix + trim_end_by(rest, strip) =~= prefix);
    } else {
        assert(whole.last() == rest.last());
        assert(whole.drop_last() =~= prefix + rest.drop_last());
        if strip(rest.last()) {
            lemma_trim_end_behind_prefix(prefix, rest.drop_last(), strip);
        }
    }
}

/// What is left of a text after trimming does not end in a stripped
/// character.
proof fn lemma_trim_end_last(s: Seq<char>, strip: spec_fn(char) -> bool)
    ensures
        trim_end_by(s, strip).len() > 0 ==> !strip(trim_end_by(s, strip).last()),
    decreases s.len(),
{
    if s.len() > 0 && strip(s.last()) {
        lemma_trim_end_last(s.drop_last(), strip);
    }
}

/// Reading a persisted address back gives the address without the double
/// quotes at its end.
pub proof fn lemma_normalize_quoted(address: Seq<char>)
    ensures
        normalize(quoted_address(address)) == trim_end_by(address, only('"')),
        address.len() == 0 || address.last() != '"' ==> normalize(quoted_address(address))
            == address,
{
    let is_quote = only('"');
    let quoted = quoted_address(address);
    let inner = seq!['0', 'x'] + address + seq!['"'];
    let open = seq!['0', 'x'] + address;
    let kept = trim_end_by(address, is_quote);
    // Whitespace: the quotes at the two ends stay.
    assert(quoted[0] == '"' && quoted.last() == '"');
    crate::text::lemma_trim_by_fixed(quoted, crate::text::whitespace());
    // Quotes from the front: one goes, then `0` stops the trimming.
    assert(quoted.drop_first() =~= inner);
    assert(inner[0] == '0');
    assert(trim_start_by(inner, is_quote) == inner);
    assert(trim_start_by(quoted, is_quote) == inner);
    // Quotes from the back: one goes, then those of the address, then `x` stops it.
    assert(inner.drop_last() =~= open);
    assert(trim_end_by(inner, is_quote) == trim_end_by(open, is_quote));
    lemma_trim_end_behind_prefix(seq!['0', 'x'], address, is_quote);
    // The prefix.
    assert(crate::text::hex_prefix().is_prefix_of(seq!['0', 'x'] + kept));
    assert((seq!['0', 'x'] + kept).skip(2) =~= kept);
}

/// A bare address never ends in a double quote.
pub proof fn lemma_normalize_no_trailing_quote(s: Seq<char>)
    ensures
        normalize(s).len() > 0 ==> normalize(s).last() != '"',
{
    let is_quote = only('"');
    let unquoted = crate::text::trim_char(crate::text::trim_whitespace(s), '"');
    lemma_trim_end_last(trim_start_by(crate::text::trim_whitespace(s), is_quote), is_quote);
    if crate::text::hex_prefix().is_prefix_of(unquoted) && unquoted.len() > 2 {
        assert(unquoted.skip(2).last() == unquoted.last());
    }
}

/// Round trip through the eBPF table: after a deployment is recorded, the
/// artifact's address reads back as it was written, but for double quotes at
/// its end, which are lost.
pub proof fn lemma_ebpf_deploy_then_get(
    registry: RegistryModel,
    artifact_id: Seq<char>,
    response_hash: Seq<char>,
    response_address: Seq<char>,
)
    ensures
        ({
            let update = UpdateModel::EbpfDeploy { artifact_id, response_hash, response_address };
            let after = apply_update(registry, update);
            &&& after is Some
            &&& lookup_ebpf(after->0, artifact_id, None) == Ok::<Seq<char>, RegistryLookupError>(
                trim_end_by(response_address, only('"')),
            )
            &&& response_address.len() == 0 || response_address.last() != '"' ==> lookup_ebpf(
                after->0,
                artifact_id,
                None,
            ) == Ok::<Seq<char>, RegistryLookupError>(response_address)
            &&& forall|contract_id: Seq<char>|
                lookup_ebpf(after->0, artifact_id, Some(contract_id)) == Err::<
                    Seq<char>,
                    RegistryLookupError,
                >(RegistryLookupError::InstanceNotFound)
        }),
{
    lemma_normalize_quoted(response_address);
}

/// Round trip through an instance entry: after an initialisation is recorded
/// for a deployed artifact, the instance's address reads back as it was
/// written, but for double quotes at its end, and the deployment's own
/// address is untouched.
pub proof fn lemma_ebpf_init_then_get(
    registry: RegistryModel,
    artifact_id: Seq<char>,
    contract_id: Seq<char>,
    response_hash: Seq<char>,
    response_address: Seq<char>,
)
    requires
        registry.l1x_vm.contains_key(artifact_id),
    ensures
        ({
            let update = UpdateModel::EbpfInit {
                artifact_id,
                contract_id,
                response_hash,
                response_address,
            };
            let after = apply_update(registry, update);
            &&& after is Some
            &&& lookup_ebpf(after->0, artifact_id, Some(contract_id)) == Ok::<
                Seq<char>,
                RegistryLookupError,
            >(trim_end_by(response_address, only('"')))
            &&& response_address.len() == 0 || response_address.last() != '"' ==> lookup_ebpf(
                after->0,
                artifact_id,
                Some(contract_id),
            ) == Ok::<Seq<char>, RegistryLookupError>(response_address)
            &&& lookup_ebpf(after->0, artifact_id, None) == lookup_ebpf(
                registry,
                artifact_id,
                None,
            )
        }),
{
    lemma_normalize_quoted(response_address);
}

/// Round trip through the EVM table: after a deployment is recorded, the
/// artifact's address reads back in bare form, which is the address as
/// written where that was bare already.
pub proof fn lemma_evm_deploy_then_get(
    registry: RegistryModel,
    artifact_id: Seq<char>,
    response_hash: Seq<char>,
    response_address: Seq<char>,
)
    ensures
        ({
            let update = UpdateModel::EvmDeploy { artifact_id, response_hash, response_address };
            let after = apply_update(registry, update);
            &&& after is Some
            &&& lookup_evm(after->0, artifact_id) == Ok::<Seq<char>, RegistryLookupError>(
                normalize(response_address),
            )
            &&& normalize(response_address) == response_address ==> lookup_evm(
                after->0,
                artifact_id,
            ) == Ok::<Seq<char>, RegistryLookupError>(response_address)
        }),
{
    lemma_normalize_no_trailing_quote(response_address);
    lemma_normalize_quoted(normalize(response_address));
}

/// The one update that is refused: an instance for an artifact that has no
/// deployment. Every other update goes through.
pub proof fn lemma_update_refused_iff_orphan_instance(registry: RegistryModel, update: UpdateModel)
    ensures
        apply_update(registry, update) is None <==> (update matches UpdateModel::EbpfInit {
            artifact_id,
            ..
        } && !registry.l1x_vm.contains_key(artifact_id)),
{
}

/// An update touches one artifact of one table: every other artifact reads
/// back as before, and the other table is untouched.
pub proof fn lemma_update_leaves_others(
    registry: RegistryModel,
    update: UpdateModel,
    other: Seq<char>,
    contract_id: Option<Seq<char>>,
)
    requires
        apply_update(registry, update) is Some,
    ensures
        ({
            let after = apply_update(registry, update)->0;
            match update {
                UpdateModel::EbpfDeploy { artifact_id, .. } | UpdateModel::EbpfInit {
                    artifact_id,
                    ..
                } => {
                    &&& after.l1x_evm == registry.l1x_evm
                    &&& other != artifact_id ==> lookup_ebpf(after, other, contract_id)
                        == lookup_ebpf(registry, other, contract_id)
                },
                UpdateModel::EvmDeploy { artifact_id, .. } => {
                    &&& after.l1x_vm == registry.l1x_vm
                    &&& other != artifact_id ==> lookup_evm(after, other) == lookup_evm(
                        registry,
                        other,
                    )
                },
            }
        }),
{
}

} // verus!
