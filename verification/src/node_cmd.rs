use crate::config::Config;
use vstd::prelude::*;
use vstd::string::*;

verus! {

/// The flags of a transaction: who signs, how gas is paid, which chain and
/// node, and that the node binary answers in JSON without asking.
pub open spec fn tx_flags(config: Config) -> Seq<char> {
    "--from="@ + config.tool_operator_moniker@ + " --gas auto --gas-adjustment "@
        + config.gas_adjustment@ + " --gas-prices "@ + config.gas_price@ + " --chain-id="@
        + config.neutron_chain_id@ + " --keyring-backend=test --output=json --home "@
        + config.home@ + " --node "@ + config.neutron_rpc@ + " -y"@
}

/// The flags of a query: which chain and node, answered in JSON.
pub open spec fn query_flags(config: Config) -> Seq<char> {
    "--chain-id="@ + config.neutron_chain_id@ + " --node "@ + config.neutron_rpc@
        + " --output=json"@
}

/// The flags of an instantiation: the admin of the new contract and its label.
pub open spec fn wasm_instantiate_flags(config: Config, label: Seq<char>) -> Seq<char> {
    "--admin="@ + config.neutron_dao_committee_address@ + " --label="@ + label
}

pub fn build_tx_flags(config: &Config) -> (flags: String)
    ensures
        flags@ == tx_flags(*config),
{
    let mut flags = String::from_str("--from=");
    flags.append(config.tool_operator_moniker.as_str());
    flags.append(" --gas auto --gas-adjustment ");
    flags.append(config.gas_adjustment.as_str());
    flags.append(" --gas-prices ");
    flags.append(config.gas_price.as_str());
    flags.append(" --chain-id=");
    flags.append(config.neutron_chain_id.as_str());
    flags.append(" --keyring-backend=test --output=json --home ");
    flags.append(config.home.as_str());
    flags.append(" --node ");
    flags.append(config.neutron_rpc.as_str());
    flags.append(" -y");
    flags
}

pub fn build_query_flags(config: &Config) -> (flags: String)
    ensures
        flags@ == query_flags(*config),
{
    let mut flags = String::from_str("--chain-id=");
    flags.append(config.neutron_chain_id.as_str());
    flags.append(" --node ");
    flags.append(config.neutron_rpc.as_str());
    flags.append(" --output=json");
    flags
}

pub fn build_wasm_instantiate_flags(config: &Config, label: &str) -> (flags: String)
    ensures
        flags@ == wasm_instantiate_flags(*config, label@),
{
    let mut flags = String::from_str("--admin=");
    flags.append(config.neutron_dao_committee_address.as_str());
    flags.append(" --label=");
    flags.append(label);
    flags
}

} // verus!
