use crate::text::{lemma_texts_push, str_equal, texts};
use vstd::prelude::*;
use vstd::string::*;

verus! {

/// The operations that a step can be restricted to.
#[derive(Debug, Clone, Copy, PartialEq, Eq, Structural)]
pub enum Operation {
    Split,
    ProvideDoubleSidedLiquidity,
    WithdrawLiquidity,
}

/// How the message of a step reaches its contract.
#[derive(Debug, Clone, Copy, PartialEq, Eq, Structural)]
pub enum MessageType {
    CosmwasmExecuteMsg,
    CosmwasmMigrateMsg,
}

/// A constraint on the keys of a message.
#[derive(Debug, PartialEq, Eq)]
pub enum ParamRestriction {
    MustBeIncluded(Vec<String>),
    CannotBeIncluded(Vec<String>),
}

#[derive(Debug, PartialEq, Eq)]
pub struct Message {
    pub name: String,
    pub params_restrictions: Option<Vec<ParamRestriction>>,
}

#[derive(Debug, PartialEq, Eq)]
pub struct MessageDetails {
    pub message_type: MessageType,
    pub message: Message,
}

/// One step of a subroutine: the contract that is called and the
/// restriction on the message that may be sent to it.
#[derive(Debug, PartialEq, Eq)]
pub struct AtomicFunction {
    pub contract_address: String,
    pub message_details: MessageDetails,
}

/// An ordered list of steps that run one after the other, all or none.
#[derive(Debug, PartialEq, Eq)]
pub struct Subroutine {
    pub functions: Vec<AtomicFunction>,
}

/// Collects the steps of a subroutine in the order in which they are added.
pub struct AtomicSubroutineBuilder {
    functions: Vec<AtomicFunction>,
}

pub enum ParamRestrictionView {
    MustBeIncluded(Seq<Seq<char>>),
    CannotBeIncluded(Seq<Seq<char>>),
}

pub struct MessageView {
    pub name: Seq<char>,
    pub params_restrictions: Option<Seq<ParamRestrictionView>>,
}

pub struct AtomicFunctionView {
    pub contract_address: Seq<char>,
    pub message_type: MessageType,
    pub message: MessageView,
}

impl View for ParamRestriction {
    type V = ParamRestrictionView;

    open spec fn view(&self) -> ParamRestrictionView {
        match self {
            ParamRestriction::MustBeIncluded(keys) => ParamRestrictionView::MustBeIncluded(
                texts(keys@),
            ),
            ParamRestriction::CannotBeIncluded(keys) => ParamRestrictionView::CannotBeIncluded(
                texts(keys@),
            ),
        }
    }
}

/// The view of each restriction of a list.
pub open spec fn restriction_views(list: Seq<ParamRestriction>) -> Seq<ParamRestrictionView> {
    list.map_values(|restriction: ParamRestriction| restriction@)
}

impl View for Message {
    type V = MessageView;

    open spec fn view(&self) -> MessageView {
        MessageView {
            name: self.name@,
            params_restrictions: match self.params_restrictions {
                Some(list) => Some(restriction_views(list@)),
                None => None,
            },
        }
    }
}

impl View for AtomicFunction {
    type V = AtomicFunctionView;

    open spec fn view(&self) -> AtomicFunctionView {
        AtomicFunctionView {
            contract_address: self.contract_address@,
            message_type: self.message_details.message_type,
            message: self.message_details.message@,
        }
    }
}

/// The view of each step of a list.
pub open spec fn step_views(list: Seq<AtomicFunction>) -> Seq<AtomicFunctionView> {
    list.map_values(|step: AtomicFunction| step@)
}

impl View for Subroutine {
    type V = Seq<AtomicFunctionView>;

    open spec fn view(&self) -> Seq<AtomicFunctionView> {
        step_views(self.functions@)
    }
}

impl View for AtomicSubroutineBuilder {
    type V = Seq<AtomicFunctionView>;

    closed spec fn view(&self) -> Seq<AtomicFunctionView> {
        step_views(self.functions@)
    }
}

/// The name under which every gated call is sent.
pub open spec fn dispatch_name() -> Seq<char> {
    "process_function"@
}

/// The operation that a token names, where it names one.
pub open spec fn operation_of(token: Seq<char>) -> Option<Operation> {
    if token == "split"@ {
        Some(Operation::Split)
    } else if token == "provide_double_sided_liquidity"@ {
        Some(Operation::ProvideDoubleSidedLiquidity)
    } else if token == "withdraw_liquidity"@ {
        Some(Operation::WithdrawLiquidity)
    } else {
        None
    }
}

/// The token of an operation names that operation, and the dispatch name
/// names none.
pub proof fn lemma_tokens_name_their_operations()
    ensures
        forall|operation: Operation|
            operation_of(#[trigger] operation.spec_identifier()) == Some(operation),
        operation_of(dispatch_name()) is None,
{
    reveal_strlit("process_function");
    reveal_strlit("split");
    reveal_strlit("provide_double_sided_liquidity");
    reveal_strlit("withdraw_liquidity");
    assert("process_function"@.len() == 16);
    assert("split"@.len() == 5);
    assert("provide_double_sided_liquidity"@.len() == 30);
    assert("withdraw_liquidity"@.len() == 18);
}

impl Operation {
    /// The token that names the operation on the wire.
    pub open spec fn spec_identifier(self) -> Seq<char> {
        match self {
            Operation::Split => "split"@,
            Operation::ProvideDoubleSidedLiquidity => "provide_double_sided_liquidity"@,
            Operation::WithdrawLiquidity => "withdraw_liquidity"@,
        }
    }

    pub fn identifier(&self) -> (token: &'static str)
        ensures
            token@ == self.spec_identifier(),
    {
        match self {
            Operation::Split => "split",
            Operation::ProvideDoubleSidedLiquidity => "provide_double_sided_liquidity",
            Operation::WithdrawLiquidity => "withdraw_liquidity",
        }
    }

    /// Looks a token up in the vocabulary.
    pub fn from_identifier(token: &str) -> (operation: Option<Operation>)
        ensures
            operation == operation_of(token@),
            operation matches Some(found) ==> found.spec_identifier() == token@,
    {
        if str_equal(token, "split") {
            Some(Operation::Split)
        } else if str_equal(token, "provide_double_sided_liquidity") {
            Some(Operation::ProvideDoubleSidedLiquidity)
        } else if str_equal(token, "withdraw_liquidity") {
            Some(Operation::WithdrawLiquidity)
        } else {
            None
        }
    }
}

/// The step that lets `contract` be asked for one operation: a dispatch
/// whose keys must include the dispatch name and the operation's token.
pub open spec fn gated_step(contract: Seq<char>, operation: Operation) -> AtomicFunctionView {
    AtomicFunctionView {
        contract_address: contract,
        message_type: MessageType::CosmwasmExecuteMsg,
        message: MessageView {
            name: dispatch_name(),
            params_restrictions: Some(
                seq![
                    ParamRestrictionView::MustBeIncluded(
                        seq![dispatch_name(), operation.spec_identifier()],
                    ),
                ],
            ),
        },
    }
}

/// The steps that deploy liquidity: the split, then one provision for each
/// pool, in the order of the pools.
pub open spec fn deploy_steps(splitter: Seq<char>, providers: Seq<Seq<char>>) -> Seq<
    AtomicFunctionView,
> {
    seq![gated_step(splitter, Operation::Split)] + providers.map_values(
        |provider: Seq<char>| gated_step(provider, Operation::ProvideDoubleSidedLiquidity),
    )
}

/// The steps that withdraw liquidity: one withdrawal for each pool, in the
/// order of the pools.
pub open spec fn withdraw_steps(withdrawers: Seq<Seq<char>>) -> Seq<AtomicFunctionView> {
    withdrawers.map_values(
        |withdrawer: Seq<char>| gated_step(withdrawer, Operation::WithdrawLiquidity),
    )
}

/// Appending a step to a list appends its view to the list's views.
pub proof fn lemma_step_views_push(list: Seq<AtomicFunction>, step: AtomicFunction)
    ensures
        step_views(list.push(step)) == step_views(list).push(step@),
{
    assert(step_views(list.push(step)) =~= step_views(list).push(step@));
}

impl AtomicFunction {
    /// Builds the step that lets `contract` be asked for one operation.
    pub fn gated(contract: &String, operation: Operation) -> (step: AtomicFunction)
        ensures
            step@ == gated_step(contract@, operation),
    {
        let mut keys: Vec<String> = Vec::new();
        let dispatch = String::from_str("process_function");
        let token = String::from_str(operation.identifier());
        proof {
            lemma_texts_push(keys@, dispatch);
            lemma_texts_push(keys@.push(dispatch), token);
            assert(texts(keys@) =~= Seq::<Seq<char>>::empty());
        }
        keys.push(dispatch);
        keys.push(token);
        assert(texts(keys@) =~= seq![dispatch_name(), operation.spec_identifier()]);
        let restriction = ParamRestriction::MustBeIncluded(keys);
        let mut restrictions: Vec<ParamRestriction> = Vec::new();
        restrictions.push(restriction);
        assert(restriction_views(restrictions@) =~= seq![
            ParamRestrictionView::MustBeIncluded(
                seq![dispatch_name(), operation.spec_identifier()],
            ),
        ]);
        AtomicFunction {
            contract_address: contract.clone(),
            message_details: MessageDetails {
                message_type: MessageType::CosmwasmExecuteMsg,
                message: Message {
                    name: String::from_str("process_function"),
                    params_restrictions: Some(restrictions),
                },
            },
        }
    }
}

impl AtomicSubroutineBuilder {
    /// A builder that holds no step.
    pub fn new() -> (builder: AtomicSubroutineBuilder)
        ensures
            builder@ == Seq::<AtomicFunctionView>::empty(),
    {
        let builder = AtomicSubroutineBuilder { functions: Vec::new() };
        assert(builder@ =~= Seq::<AtomicFunctionView>::empty());
        builder
    }

    /// Adds a step after those already there. The step is taken as it is.
    pub fn with_function(self, function: AtomicFunction) -> (builder: AtomicSubroutineBuilder)
        ensures
            builder@ == self@.push(function@),
    {
        let mut functions = self.functions;
        proof {
            lemma_step_views_push(functions@, function);
        }
        functions.push(function);
        AtomicSubroutineBuilder { functions }
    }

    /// The subroutine of the steps added so far, in the order of their adding.
    pub fn build(self) -> (subroutine: Subroutine)
        ensures
            subroutine@ == self@,
    {
        Subroutine { functions: self.functions }
    }
}

/// Builds the subroutine that deploys liquidity: the split, then one
/// provision for each pool.
pub fn build_deploy_subroutine(
    split_lib_address: &String,
    astroport_lper_lib_addresses: &Vec<String>,
) -> (subroutine: Subroutine)
    ensures
        subroutine@ == deploy_steps(split_lib_address@, texts(astroport_lper_lib_addresses@)),
{
    let ghost providers = texts(astroport_lper_lib_addresses@);
    let ghost provide = |provider: Seq<char>|
        gated_step(provider, Operation::ProvideDoubleSidedLiquidity);
    let mut builder = AtomicSubroutineBuilder::new();
    builder = builder.with_function(AtomicFunction::gated(split_lib_address, Operation::Split));
    let mut i: usize = 0;
    assert(builder@ =~= seq![gated_step(split_lib_address@, Operation::Split)]
        + providers.take(0).map_values(provide));
    while i < astroport_lper_lib_addresses.len()
        invariant
            i <= astroport_lper_lib_addresses.len(),
            providers == texts(astroport_lper_lib_addresses@),
            provide == |provider: Seq<char>|
                gated_step(provider, Operation::ProvideDoubleSidedLiquidity),
            builder@ == seq![gated_step(split_lib_address@, Operation::Split)] + providers.take(
                i as int,
            ).map_values(provide),
        decreases astroport_lper_lib_addresses.len() - i,
    {
        let step = AtomicFunction::gated(
            &astroport_lper_lib_addresses[i],
            Operation::ProvideDoubleSidedLiquidity,
        );
        proof {
            assert(providers[i as int] == astroport_lper_lib_addresses@[i as int]@);
            assert(providers.take(i + 1).map_values(provide) =~= providers.take(
                i as int,
            ).map_values(provide).push(step@));
        }
        builder = builder.with_function(step);
        assert(builder@ =~= seq![gated_step(split_lib_address@, Operation::Split)]
            + providers.take(i + 1).map_values(provide));
        i += 1;
    }
    proof {
        assert(providers.take(i as int) =~= providers);
    }
    builder.build()
}

/// Builds the subroutine that withdraws liquidity: one withdrawal for each pool.
pub fn build_withdraw_subroutine(astroport_withdraw_lib_addresses: &Vec<String>) -> (subroutine:
    Subroutine)
    ensures
        subroutine@ == withdraw_steps(texts(astroport_withdraw_lib_addresses@)),
{
    let ghost withdrawers = texts(astroport_withdraw_lib_addresses@);
    let ghost withdraw = |withdrawer: Seq<char>|
        gated_step(withdrawer, Operation::WithdrawLiquidity);
    let mut builder = AtomicSubroutineBuilder::new();
    let mut i: usize = 0;
    assert(builder@ =~= withdrawers.take(0).map_values(withdraw));
    while i < astroport_withdraw_lib_addresses.len()
        invariant
            i <= astroport_withdraw_lib_addresses.len(),
            withdrawers == texts(astroport_withdraw_lib_addresses@),
            withdraw == |withdrawer: Seq<char>|
                gated_step(withdrawer, Operation::WithdrawLiquidity),
            builder@ == withdrawers.take(i as int).map_values(withdraw),
        decreases astroport_withdraw_lib_addresses.len() - i,
    {
        let step = AtomicFunction::gated(
            &astroport_withdraw_lib_addresses[i],
            Operation::WithdrawLiquidity,
        );
        proof {
            assert(withdrawers[i as int] == astroport_withdraw_lib_addresses@[i as int]@);
            assert(withdrawers.take(i + 1).map_values(withdraw) =~= withdrawers.take(
                i as int,
            ).map_values(withdraw).push(step@));
        }
        builder = builder.with_function(step);
        i += 1;
    }
    proof {
        assert(withdrawers.take(i as int) =~= withdrawers);
    }
    builder.build()
}

} // verus!
