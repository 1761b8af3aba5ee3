use crate::authorization::{
    create_execute_messages_for_authorization, functions_identifiers,
    get_filtered_authorizations, identifiers_messages, in_phase, label_suffix, Authorization,
    ProcessorMessage,
};
use crate::cli::ProgramAction;
use crate::config::Config;
use crate::subroutine::Subroutine;
use crate::text::{is_suffix, lemma_texts_push, texts};
use vstd::prelude::*;
use vstd::string::*;

verus! {

/// Who may use a permissioned authorization.
#[derive(Debug, PartialEq, Eq)]
pub enum PermissionTypeInfo {
    /// The listed addresses, each as often as it likes.
    WithoutCallLimit(Vec<String>),
    /// The listed addresses, each up to its number of calls.
    WithCallLimit(Vec<(String, u128)>),
}

/// Whether an authorization is open to everyone or to a list of addresses.
#[derive(Debug, PartialEq, Eq)]
pub enum AuthorizationModeInfo {
    Permissionless,
    Permissioned(PermissionTypeInfo),
}

/// An authorization as it is handed to the authorization contract.
#[derive(Debug, PartialEq, Eq)]
pub struct AuthorizationInfo {
    pub label: String,
    pub mode: AuthorizationModeInfo,
    pub subroutine: Subroutine,
}

/// The label of the authorization of one phase of a program: the
/// program's prefix, an underscore, and the suffix of the phase.
pub open spec fn phase_label(prefix: Seq<char>, action: ProgramAction) -> Seq<char> {
    prefix + "_"@ + label_suffix(action)
}

/// The mode lets exactly `operator` through, without a limit on calls.
pub open spec fn lets_only(mode: AuthorizationModeInfo, operator: Seq<char>) -> bool {
    mode matches AuthorizationModeInfo::Permissioned(PermissionTypeInfo::WithoutCallLimit(allowed))
        && texts(allowed@) == seq![operator]
}

/// The authorization is that of one phase of the program `prefix`: it
/// bears the phase's label, lets only `operator` through and gates
/// `subroutine`.
pub open spec fn is_phase_authorization(
    authorization: AuthorizationInfo,
    prefix: Seq<char>,
    action: ProgramAction,
    operator: Seq<char>,
    subroutine: Subroutine,
) -> bool {
    &&& authorization.label@ == phase_label(prefix, action)
    &&& lets_only(authorization.mode, operator)
    &&& authorization.subroutine == subroutine
}

/// The accounts of a program: the input account, then the split outputs,
/// the liquidity outputs and the withdrawal accounts.
pub open spec fn program_accounts(
    input: Seq<char>,
    split_outputs: Seq<Seq<char>>,
    liquidity_outputs: Seq<Seq<char>>,
    withdrawals: Seq<Seq<char>>,
) -> Seq<Seq<char>> {
    seq![input] + split_outputs + liquidity_outputs + withdrawals
}

/// The label of a phase ends with the suffix of that phase, and not with
/// that of the other: each phase finds its own authorization.
pub proof fn lemma_label_tells_its_phase(prefix: Seq<char>)
    ensures
        is_suffix(
            label_suffix(ProgramAction::Deploy),
            phase_label(prefix, ProgramAction::Deploy),
        ),
        is_suffix(
            label_suffix(ProgramAction::Withdraw),
            phase_label(prefix, ProgramAction::Withdraw),
        ),
        !is_suffix(
            label_suffix(ProgramAction::Withdraw),
            phase_label(prefix, ProgramAction::Deploy),
        ),
        !is_suffix(
            label_suffix(ProgramAction::Deploy),
            phase_label(prefix, ProgramAction::Withdraw),
        ),
{
    reveal_strlit("_");
    reveal_strlit("deploy");
    reveal_strlit("withdraw");
    let deploy = phase_label(prefix, ProgramAction::Deploy);
    let withdraw = phase_label(prefix, ProgramAction::Withdraw);
    assert("deploy"@.len() == 6);
    assert("withdraw"@.len() == 8);
    assert(deploy.subrange(deploy.len() - 6, deploy.len() as int) =~= "deploy"@);
    assert(withdraw.subrange(withdraw.len() - 8, withdraw.len() as int) =~= "withdraw"@);
    assert(deploy[deploy.len() - 1] == 'y');
    assert(withdraw[withdraw.len() - 1] == 'w');
    if is_suffix("withdraw"@, deploy) {
        let tail = deploy.subrange(deploy.len() - 8, deploy.len() as int);
        assert(tail[7] == deploy[deploy.len() - 1]);
        assert("withdraw"@[7] == 'w');
    }
    if is_suffix("deploy"@, withdraw) {
        let tail = withdraw.subrange(withdraw.len() - 6, withdraw.len() as int);
        assert(tail[5] == withdraw[withdraw.len() - 1]);
        assert("deploy"@[5] == 'y');
    }
}

/// Gives the label of the authorization of one phase of a program.
pub fn authorization_label(label_prefix: &str, action: ProgramAction) -> (label: String)
    ensures
        label@ == phase_label(label_prefix@, action),
{
    let mut label = String::from_str(label_prefix);
    label.append("_");
    match action {
        ProgramAction::Deploy => label.append("deploy"),
        ProgramAction::Withdraw => label.append("withdraw"),
    }
    label
}

fn phase_authorization(
    label_prefix: &str,
    action: ProgramAction,
    operator: &String,
    subroutine: Subroutine,
) -> (authorization: AuthorizationInfo)
    ensures
        is_phase_authorization(authorization, label_prefix@, action, operator@, subroutine),
{
    let mut allowed: Vec<String> = Vec::new();
    let operator = operator.clone();
    proof {
        lemma_texts_push(allowed@, operator);
        assert(texts(allowed@) =~= Seq::<Seq<char>>::empty());
    }
    allowed.push(operator);
    assert(texts(allowed@) =~= seq![operator@]);
    AuthorizationInfo {
        label: authorization_label(label_prefix, action),
        mode: AuthorizationModeInfo::Permissioned(PermissionTypeInfo::WithoutCallLimit(allowed)),
        subroutine,
    }
}

/// Gives the two authorizations that a program is created with: that of
/// the deploy phase, then that of the withdraw phase. Each lets only the
/// tool's operator through.
pub fn create_and_execute_authorization(
    deploy_subroutine: Subroutine,
    withdraw_subroutine: Subroutine,
    config: &Config,
    label_prefix: &String,
) -> (authorizations: Vec<AuthorizationInfo>)
    ensures
        authorizations@.len() == 2,
        is_phase_authorization(
            authorizations@[0],
            label_prefix@,
            ProgramAction::Deploy,
            config.tool_operator_address@,
            deploy_subroutine,
        ),
        is_phase_authorization(
            authorizations@[1],
            label_prefix@,
            ProgramAction::Withdraw,
            config.tool_operator_address@,
            withdraw_subroutine,
        ),
{
    let deploy_authorization = phase_authorization(
        label_prefix.as_str(),
        ProgramAction::Deploy,
        &config.tool_operator_address,
        deploy_subroutine,
    );
    let withdraw_authorization = phase_authorization(
        label_prefix.as_str(),
        ProgramAction::Withdraw,
        &config.tool_operator_address,
        withdraw_subroutine,
    );
    let mut authorizations: Vec<AuthorizationInfo> = Vec::new();
    authorizations.push(deploy_authorization);
    authorizations.push(withdraw_authorization);
    authorizations
}

fn push_all(out: &mut Vec<String>, more: &Vec<String>)
    ensures
        texts(final(out)@) == texts(old(out)@) + texts(more@),
{
    let ghost before = texts(out@);
    let mut i: usize = 0;
    assert(texts(out@) =~= before + texts(more@).take(0));
    while i < more.len()
        invariant
            i <= more.len(),
            texts(out@) == before + texts(more@).take(i as int),
        decreases more.len() - i,
    {
        let account = more[i].clone();
        proof {
            lemma_texts_push(out@, account);
            assert(texts(more@)[i as int] == account@);
        }
        out.push(account);
        assert(texts(out@) =~= before + texts(more@).take(i + 1));
        i += 1;
    }
    assert(texts(more@).take(i as int) =~= texts(more@));
}

/// Gives the accounts whose ownership passes to the committee once a
/// program stands: the input account, then the split outputs, the
/// liquidity outputs and the withdrawal accounts.
pub fn transfer_ownership(
    input_account: &String,
    split_output_accounts: &Vec<String>,
    liquidity_output_accounts: &Vec<String>,
    withdrawal_accounts: &Vec<String>,
) -> (all_accounts: Vec<String>)
    ensures
        texts(all_accounts@) == program_accounts(
            input_account@,
            texts(split_output_accounts@),
            texts(liquidity_output_accounts@),
            texts(withdrawal_accounts@),
        ),
{
    let mut all_accounts: Vec<String> = Vec::new();
    let input = input_account.clone();
    proof {
        lemma_texts_push(all_accounts@, input);
        assert(texts(all_accounts@) =~= Seq::<Seq<char>>::empty());
    }
    all_accounts.push(input);
    assert(texts(all_accounts@) =~= seq![input_account@]);
    push_all(&mut all_accounts, split_output_accounts);
    push_all(&mut all_accounts, liquidity_output_accounts);
    push_all(&mut all_accounts, withdrawal_accounts);
    all_accounts
}

/// A request to run the messages that an authorization lets through.
#[derive(Debug, PartialEq, Eq)]
pub struct SendMsgs {
    pub label: String,
    pub messages: Vec<ProcessorMessage>,
}

/// The request is the one that runs `authorization`: it bears its label
/// and holds one message for each operation that it gates, in order.
pub open spec fn runs(request: SendMsgs, authorization: Authorization) -> bool {
    &&& request.label@ == authorization.label@
    &&& request.messages@ == identifiers_messages(functions_identifiers(authorization))
}

/// Gives the requests that run one phase of a program: one for each
/// authorization of the phase, in the order in which the authorizations came.
pub fn execute_program(authorizations: Vec<Authorization>, action: ProgramAction) -> (requests:
    Vec<SendMsgs>)
    ensures
        requests@.len() == authorizations@.filter(
            |authorization: Authorization| in_phase(authorization, action),
        ).len(),
        forall|i: int|
            0 <= i < requests@.len() ==> runs(
                #[trigger] requests@[i],
                authorizations@.filter(
                    |authorization: Authorization| in_phase(authorization, action),
                )[i],
            ),
{
    let kept = get_filtered_authorizations(authorizations, action);
    let mut requests: Vec<SendMsgs> = Vec::new();
    let mut i: usize = 0;
    while i < kept.len()
        invariant
            i <= kept.len(),
            requests@.len() == i,
            forall|k: int| 0 <= k < i ==> runs(#[trigger] requests@[k], kept@[k]),
        decreases kept.len() - i,
    {
        let authorization = &kept[i];
        let messages = match create_execute_messages_for_authorization(authorization) {
            Ok(messages) => messages,
            Err(_) => unreached(),
        };
        requests.push(SendMsgs { label: authorization.label.clone(), messages });
        i += 1;
    }
    requests
}

} // verus!
