use liquidity_deployment_tool::cli::{PairType, PoolInfo, PoolType};
use liquidity_deployment_tool::config::Config;
use liquidity_deployment_tool::library::{
    approve_astro_lper_library, approve_astro_withdraw_library, approve_splitter_library,
    instantiate_astro_lper_library, instantiate_astro_withdraw_library,
    instantiate_splitter_library, Approval, LiquidityInstantiateMsg, SplitConfig,
    SplitterInstantiateMsg,
};

fn config() -> Config {
    Config {
        base_account_code_id: 1,
        spliter_code_id: 2,
        astro_lper_code_id: 3,
        astro_withdraw_code_id: 4,
        authorization_code_id: 5,
        processor_code_id: 6,
        tool_operator_address: "neutron1operator".to_string(),
        tool_operator_moniker: "operator".to_string(),
        neutron_dao_committee_address: "neutron1dao".to_string(),
        neutron_rpc: "http://localhost:26657".to_string(),
        neutron_binary: "neutrond".to_string(),
        neutron_chain_id: "test-1".to_string(),
        home: "/home/op/.neutrond".to_string(),
        gas_price: "0.0053untrn".to_string(),
        gas_adjustment: "1.5".to_string(),
    }
}

fn pool(address: &str, amount_a: u128, amount_b: u128, pool_type: PoolType) -> PoolInfo {
    PoolInfo {
        address: address.to_string(),
        amount_a,
        amount_b,
        denom_a: format!("{}-a", address),
        denom_b: format!("{}-b", address),
        pool_type,
    }
}

fn split(denom: &str, account: &str, amount: u128) -> SplitConfig {
    SplitConfig { denom: denom.to_string(), account: account.to_string(), amount }
}

#[test]
fn the_splitter_hands_each_pool_its_two_amounts() {
    let pools = vec![
        pool("first", 10, 20, PoolType::Cw20LpToken(PairType::Xyk)),
        pool("second", 30, u128::MAX, PoolType::NativeLpToken(PairType::Stable)),
    ];
    let msg = instantiate_splitter_library(
        &config(),
        &pools,
        &"in".to_string(),
        &vec!["out1".to_string(), "out2".to_string()],
        &"proc".to_string(),
    );
    assert_eq!(
        msg,
        SplitterInstantiateMsg {
            owner: "neutron1dao".to_string(),
            processor: "proc".to_string(),
            input_addr: "in".to_string(),
            splits: vec![
                split("first-a", "out1", 10),
                split("first-b", "out1", 20),
                split("second-a", "out2", 30),
                split("second-b", "out2", u128::MAX),
            ],
        }
    );
}

#[test]
fn pools_and_accounts_are_paired_as_far_as_both_go() {
    let pools = vec![
        pool("first", 1, 2, PoolType::Cw20LpToken(PairType::Xyk)),
        pool("second", 3, 4, PoolType::Cw20LpToken(PairType::Xyk)),
    ];
    let fewer_accounts = instantiate_splitter_library(
        &config(),
        &pools,
        &"in".to_string(),
        &vec!["out1".to_string()],
        &"proc".to_string(),
    );
    assert_eq!(fewer_accounts.splits, vec![split("first-a", "out1", 1), split("first-b", "out1", 2)]);
    let fewer_pools = instantiate_splitter_library(
        &config(),
        &pools[..1].iter().map(|p| pool(&p.address, 1, 2, PoolType::Cw20LpToken(PairType::Xyk))).collect(),
        &"in".to_string(),
        &vec!["out1".to_string(), "out2".to_string(), "out3".to_string()],
        &"proc".to_string(),
    );
    assert_eq!(fewer_pools.splits, vec![split("first-a", "out1", 1), split("first-b", "out1", 2)]);
    let none = instantiate_splitter_library(
        &config(),
        &vec![],
        &"in".to_string(),
        &vec![],
        &"proc".to_string(),
    );
    assert_eq!(none.splits, vec![]);
}

#[test]
fn the_provider_is_set_up_between_its_two_accounts() {
    let msg = instantiate_astro_lper_library(
        &config(),
        &pool("first", 1, 2, PoolType::NativeLpToken(PairType::Stable)),
        &"split-out".to_string(),
        &"liquidity-out".to_string(),
        &"proc".to_string(),
    );
    assert_eq!(
        msg,
        LiquidityInstantiateMsg {
            owner: "neutron1dao".to_string(),
            processor: "proc".to_string(),
            input_addr: "split-out".to_string(),
            output_addr: "liquidity-out".to_string(),
            pool_addr: "first".to_string(),
            pool_type: PoolType::Cw20LpToken(PairType::Xyk),
            asset1: "first-a".to_string(),
            asset2: "first-b".to_string(),
        }
    );
}

#[test]
fn the_withdrawer_hands_to_the_committee() {
    let msg = instantiate_astro_withdraw_library(
        &config(),
        &pool("first", 1, 2, PoolType::Cw20LpToken(PairType::Custom("c".to_string()))),
        &"liquidity-out".to_string(),
        &"proc".to_string(),
    );
    assert_eq!(
        msg,
        LiquidityInstantiateMsg {
            owner: "neutron1dao".to_string(),
            processor: "proc".to_string(),
            input_addr: "liquidity-out".to_string(),
            output_addr: "neutron1dao".to_string(),
            pool_addr: "first".to_string(),
            pool_type: PoolType::Cw20LpToken(PairType::Xyk),
            asset1: "first-a".to_string(),
            asset2: "first-b".to_string(),
        }
    );
}

fn approval(account: &str, library: &str) -> Approval {
    Approval { account: account.to_string(), library: library.to_string() }
}

#[test]
fn the_splitter_is_approved_on_the_input_and_on_each_output() {
    assert_eq!(
        approve_splitter_library(
            &"in".to_string(),
            &vec!["out1".to_string(), "out2".to_string()],
            &"splitter".to_string(),
        ),
        vec![
            approval("in", "splitter"),
            approval("out1", "splitter"),
            approval("out2", "splitter"),
        ]
    );
    assert_eq!(
        approve_splitter_library(&"in".to_string(), &vec![], &"splitter".to_string()),
        vec![approval("in", "splitter")]
    );
}

#[test]
fn the_liquidity_libraries_are_approved_on_their_accounts() {
    assert_eq!(
        approve_astro_lper_library(
            &"split-out".to_string(),
            &"liquidity-out".to_string(),
            &"lper".to_string(),
        ),
        vec![approval("split-out", "lper"), approval("liquidity-out", "lper")]
    );
    assert_eq!(
        approve_astro_withdraw_library(&"liquidity-out".to_string(), &"withdrawer".to_string()),
        vec![approval("liquidity-out", "withdrawer")]
    );
}
