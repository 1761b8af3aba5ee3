use vstd::prelude::*;

verus! {

/// The values that the operator supplies once, when the tool starts.
#[derive(Debug, Clone)]
pub struct Config {
    pub base_account_code_id: u64,
    pub spliter_code_id: u64,
    pub astro_lper_code_id: u64,
    pub astro_withdraw_code_id: u64,
    pub authorization_code_id: u64,
    pub processor_code_id: u64,
    pub tool_operator_address: String,
    pub tool_operator_moniker: String,
    pub neutron_dao_committee_address: String,
    /// Where and how the node binary is reached.
    pub neutron_rpc: String,
    pub neutron_binary: String,
    pub neutron_chain_id: String,
    pub home: String,
    pub gas_price: String,
    pub gas_adjustment: String,
}

} // verus!
