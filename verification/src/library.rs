use crate::cli::{PairType, PairTypeView, PoolInfo, PoolInfoView, PoolType, PoolTypeView};
use crate::config::Config;
use crate::text::texts;
use vstd::prelude::*;
use vstd::string::*;

verus! {

/// One share of what the splitter hands on: so much of one asset to one account.
#[derive(Debug, PartialEq, Eq)]
pub struct SplitConfig {
    pub denom: String,
    pub account: String,
    pub amount: u128,
}

/// What the splitter library is instantiated with.
#[derive(Debug, PartialEq, Eq)]
pub struct SplitterInstantiateMsg {
    pub owner: String,
    pub processor: String,
    pub input_addr: String,
    pub splits: Vec<SplitConfig>,
}

/// What a library that provides or withdraws liquidity is instantiated
/// with: its accounts, its pool and the two assets of the pool.
#[derive(Debug, PartialEq, Eq)]
pub struct LiquidityInstantiateMsg {
    pub owner: String,
    pub processor: String,
    pub input_addr: String,
    pub output_addr: String,
    pub pool_addr: String,
    pub pool_type: PoolType,
    pub asset1: String,
    pub asset2: String,
}

/// The leave for one library to act on one account.
#[derive(Debug, PartialEq, Eq)]
pub struct Approval {
    pub account: String,
    pub library: String,
}

pub struct ApprovalView {
    pub account: Seq<char>,
    pub library: Seq<char>,
}

impl View for Approval {
    type V = ApprovalView;

    open spec fn view(&self) -> ApprovalView {
        ApprovalView { account: self.account@, library: self.library@ }
    }
}

/// The view of each approval of a list.
pub open spec fn approval_views(list: Seq<Approval>) -> Seq<ApprovalView> {
    list.map_values(|approval: Approval| approval@)
}

/// The leave for `library` to act on `account`.
pub open spec fn approval_of(account: Seq<char>, library: Seq<char>) -> ApprovalView {
    ApprovalView { account, library }
}

/// The approvals that the splitter needs: on the input account, from
/// which it takes, and on each account to which it hands a share.
pub open spec fn splitter_approvals(
    input: Seq<char>,
    outputs: Seq<Seq<char>>,
    splitter: Seq<char>,
) -> Seq<ApprovalView> {
    seq![approval_of(input, splitter)] + outputs.map_values(
        |output: Seq<char>| approval_of(output, splitter),
    )
}

pub struct SplitConfigView {
    pub denom: Seq<char>,
    pub account: Seq<char>,
    pub amount: u128,
}

pub struct LiquidityInstantiateMsgView {
    pub owner: Seq<char>,
    pub processor: Seq<char>,
    pub input_addr: Seq<char>,
    pub output_addr: Seq<char>,
    pub pool_addr: Seq<char>,
    pub pool_type: PoolTypeView,
    pub asset1: Seq<char>,
    pub asset2: Seq<char>,
}

impl View for SplitConfig {
    type V = SplitConfigView;

    open spec fn view(&self) -> SplitConfigView {
        SplitConfigView { denom: self.denom@, account: self.account@, amount: self.amount }
    }
}

impl View for LiquidityInstantiateMsg {
    type V = LiquidityInstantiateMsgView;

    open spec fn view(&self) -> LiquidityInstantiateMsgView {
        LiquidityInstantiateMsgView {
            owner: self.owner@,
            processor: self.processor@,
            input_addr: self.input_addr@,
            output_addr: self.output_addr@,
            pool_addr: self.pool_addr@,
            pool_type: self.pool_type@,
            asset1: self.asset1@,
            asset2: self.asset2@,
        }
    }
}

/// The view of each split of a list.
pub open spec fn split_views(list: Seq<SplitConfig>) -> Seq<SplitConfigView> {
    list.map_values(|split: SplitConfig| split@)
}

/// The view of each pool of a list.
pub open spec fn pool_views(list: Seq<PoolInfo>) -> Seq<PoolInfoView> {
    list.map_values(|pool: PoolInfo| pool@)
}

/// The smaller of two lengths.
pub open spec fn shorter(a: nat, b: nat) -> nat {
    if a <= b {
        a
    } else {
        b
    }
}

/// The splits for a list of pools, each with its output account: for
/// each pool its first amount and then its second, both to the pool's
/// account. Pools without an account, and accounts without a pool, give
/// nothing.
pub open spec fn pool_splits(pools: Seq<PoolInfoView>, outputs: Seq<Seq<char>>) -> Seq<
    SplitConfigView,
> {
    Seq::new(
        2 * shorter(pools.len(), outputs.len()),
        |k: int|
            if k % 2 == 0 {
                SplitConfigView {
                    denom: pools[k / 2].denom_a,
                    account: outputs[k / 2],
                    amount: pools[k / 2].amount_a,
                }
            } else {
                SplitConfigView {
                    denom: pools[k / 2].denom_b,
                    account: outputs[k / 2],
                    amount: pools[k / 2].amount_b,
                }
            },
    )
}

/// The kind of pool that every liquidity library is set up for.
pub open spec fn library_pool_type() -> PoolTypeView {
    PoolTypeView::Cw20LpToken(PairTypeView::Xyk)
}

/// Gives what the splitter library of a program is instantiated with.
/// The committee owns it; it takes from `input_addr` and hands each pool
/// its two amounts.
pub fn instantiate_splitter_library(
    config: &Config,
    pools: &Vec<PoolInfo>,
    input_addr: &String,
    output_addrs: &Vec<String>,
    processor_addr: &String,
) -> (msg: SplitterInstantiateMsg)
    ensures
        msg.owner@ == config.neutron_dao_committee_address@,
        msg.processor@ == processor_addr@,
        msg.input_addr@ == input_addr@,
        split_views(msg.splits@) == pool_splits(pool_views(pools@), texts(output_addrs@)),
{
    let n: usize = if pools.len() <= output_addrs.len() {
        pools.len()
    } else {
        output_addrs.len()
    };
    let ghost wanted = pool_splits(pool_views(pools@), texts(output_addrs@));
    let mut splits: Vec<SplitConfig> = Vec::new();
    let mut i: usize = 0;
    assert(split_views(splits@) =~= wanted.take(0));
    while i < n
        invariant
            i <= n,
            n == shorter(pools@.len(), output_addrs@.len()),
            wanted == pool_splits(pool_views(pools@), texts(output_addrs@)),
            split_views(splits@) == wanted.take(2 * i),
        decreases n - i,
    {
        let pool = &pools[i];
        let first = SplitConfig {
            denom: pool.denom_a.clone(),
            account: output_addrs[i].clone(),
            amount: pool.amount_a,
        };
        let second = SplitConfig {
            denom: pool.denom_b.clone(),
            account: output_addrs[i].clone(),
            amount: pool.amount_b,
        };
        proof {
            assert(pool_views(pools@)[i as int] == pool@);
            assert(texts(output_addrs@)[i as int] == output_addrs@[i as int]@);
            assert((2 * i) % 2 == 0 && (2 * i) / 2 == i);
            assert((2 * i + 1) % 2 == 1 && (2 * i + 1) / 2 == i);
            assert(wanted[2 * i] == first@);
            assert(wanted[2 * i + 1] == second@);
            assert(split_views(splits@.push(first).push(second)) =~= split_views(splits@).push(
                first@,
            ).push(second@));
            assert(wanted.take(2 * (i + 1)) =~= wanted.take(2 * i).push(first@).push(second@));
        }
        splits.push(first);
        splits.push(second);
        i += 1;
    }
    assert(wanted.take(2 * n) =~= wanted);
    SplitterInstantiateMsg {
        owner: config.neutron_dao_committee_address.clone(),
        processor: processor_addr.clone(),
        input_addr: input_addr.clone(),
        splits,
    }
}

/// Gives what the library that provides liquidity to `pool` is
/// instantiated with. The committee owns it; it takes from `input_addr`
/// and leaves the shares at `output_addr`.
pub fn instantiate_astro_lper_library(
    config: &Config,
    pool: &PoolInfo,
    input_addr: &String,
    output_addr: &String,
    processor_addr: &String,
) -> (msg: LiquidityInstantiateMsg)
    ensures
        msg@ == (LiquidityInstantiateMsgView {
            owner: config.neutron_dao_committee_address@,
            processor: processor_addr@,
            input_addr: input_addr@,
            output_addr: output_addr@,
            pool_addr: pool.address@,
            pool_type: library_pool_type(),
            asset1: pool.denom_a@,
            asset2: pool.denom_b@,
        }),
{
    LiquidityInstantiateMsg {
        owner: config.neutron_dao_committee_address.clone(),
        processor: processor_addr.clone(),
        input_addr: input_addr.clone(),
        output_addr: output_addr.clone(),
        pool_addr: pool.address.clone(),
        pool_type: PoolType::Cw20LpToken(PairType::Xyk),
        asset1: pool.denom_a.clone(),
        asset2: pool.denom_b.clone(),
    }
}

/// Gives what the library that withdraws liquidity from `pool` is
/// instantiated with. The committee owns it; it takes the shares from
/// `input_addr` and hands what they are worth to the committee.
pub fn instantiate_astro_withdraw_library(
    config: &Config,
    pool: &PoolInfo,
    input_addr: &String,
    processor_addr: &String,
) -> (msg: LiquidityInstantiateMsg)
    ensures
        msg@ == (LiquidityInstantiateMsgView {
            owner: config.neutron_dao_committee_address@,
            processor: processor_addr@,
            input_addr: input_addr@,
            output_addr: config.neutron_dao_committee_address@,
            pool_addr: pool.address@,
            pool_type: library_pool_type(),
            asset1: pool.denom_a@,
            asset2: pool.denom_b@,
        }),
{
    LiquidityInstantiateMsg {
        owner: config.neutron_dao_committee_address.clone(),
        processor: processor_addr.clone(),
        input_addr: input_addr.clone(),
        output_addr: config.neutron_dao_committee_address.clone(),
        pool_addr: pool.address.clone(),
        pool_type: PoolType::Cw20LpToken(PairType::Xyk),
        asset1: pool.denom_a.clone(),
        asset2: pool.denom_b.clone(),
    }
}

/// Gives the approvals that the splitter library needs, in the order in
/// which they are asked for: first on the input account, then on each
/// split output account.
pub fn approve_splitter_library(
    input_account: &String,
    split_output_accounts: &Vec<String>,
    split_lib_address: &String,
) -> (approvals: Vec<Approval>)
    ensures
        approval_views(approvals@) == splitter_approvals(
            input_account@,
            texts(split_output_accounts@),
            split_lib_address@,
        ),
{
    let ghost outputs = texts(split_output_accounts@);
    let ghost on = |output: Seq<char>| approval_of(output, split_lib_address@);
    let ghost first = approval_of(input_account@, split_lib_address@);
    let mut approvals: Vec<Approval> = Vec::new();
    approvals.push(
        Approval { account: input_account.clone(), library: split_lib_address.clone() },
    );
    let mut i: usize = 0;
    assert(approval_views(approvals@) =~= seq![first] + outputs.take(0).map_values(on));
    while i < split_output_accounts.len()
        invariant
            i <= split_output_accounts.len(),
            outputs == texts(split_output_accounts@),
            on == |output: Seq<char>| approval_of(output, split_lib_address@),
            first == approval_of(input_account@, split_lib_address@),
            approval_views(approvals@) == seq![first] + outputs.take(i as int).map_values(on),
        decreases split_output_accounts.len() - i,
    {
        let approval = Approval {
            account: split_output_accounts[i].clone(),
            library: split_lib_address.clone(),
        };
        proof {
            assert(outputs[i as int] == split_output_accounts@[i as int]@);
            assert(approval_views(approvals@.push(approval)) =~= approval_views(approvals@).push(
                approval@,
            ));
            assert(outputs.take(i + 1).map_values(on) =~= outputs.take(i as int).map_values(
                on,
            ).push(approval@));
        }
        approvals.push(approval);
        assert(approval_views(approvals@) =~= seq![first] + outputs.take(i + 1).map_values(on));
        i += 1;
    }
    assert(outputs.take(i as int) =~= outputs);
    approvals
}

/// Gives the approvals that a library that provides liquidity needs: on
/// the account from which it takes the two assets, then on the account
/// at which it leaves the shares.
pub fn approve_astro_lper_library(
    split_output_account: &String,
    liquidity_output_account: &String,
    astroport_lper_lib_address: &String,
) -> (approvals: Vec<Approval>)
    ensures
        approval_views(approvals@) == seq![
            approval_of(split_output_account@, astroport_lper_lib_address@),
            approval_of(liquidity_output_account@, astroport_lper_lib_address@),
        ],
{
    let mut approvals: Vec<Approval> = Vec::new();
    approvals.push(
        Approval {
            account: split_output_account.clone(),
            library: astroport_lper_lib_address.clone(),
        },
    );
    approvals.push(
        Approval {
            account: liquidity_output_account.clone(),
            library: astroport_lper_lib_address.clone(),
        },
    );
    assert(approval_views(approvals@) =~= seq![
        approval_of(split_output_account@, astroport_lper_lib_address@),
        approval_of(liquidity_output_account@, astroport_lper_lib_address@),
    ]);
    approvals
}

/// Gives the approval that a library that withdraws liquidity needs: on
/// the account from which it takes the shares.
pub fn approve_astro_withdraw_library(
    liquidity_output_account: &String,
    astroport_withdraw_lib_address: &String,
) -> (approvals: Vec<Approval>)
    ensures
        approval_views(approvals@) == seq![
            approval_of(liquidity_output_account@, astroport_withdraw_lib_address@),
        ],
{
    let mut approvals: Vec<Approval> = Vec::new();
    approvals.push(
        Approval {
            account: liquidity_output_account.clone(),
            library: astroport_withdraw_lib_address.clone(),
        },
    );
    assert(approval_views(approvals@) =~= seq![
        approval_of(liquidity_output_account@, astroport_withdraw_lib_address@),
    ]);
    approvals
}

} // verus!
