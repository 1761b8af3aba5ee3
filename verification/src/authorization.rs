use crate::cli::ProgramAction;
use crate::error::Error;
use crate::json::JsonValue;
use crate::seq_lemmas::{
    lemma_filter_all, lemma_filter_none, lemma_filter_take, lemma_flat_map_all,
    lemma_flat_map_concat, lemma_flat_map_nothing, lemma_flat_map_take,
};
use crate::subroutine::{
    dispatch_name, lemma_tokens_name_their_operations, operation_of, Operation,
};
use crate::text::{is_suffix, lemma_texts_push, str_ends_with, str_equal, texts};
use vstd::prelude::*;
use vstd::string::*;

verus! {

/// The answer of the authorization contract to a query for its authorizations.
#[derive(Debug, PartialEq, Eq)]
pub struct AuthorizationsResponse {
    pub data: Vec<Authorization>,
}

/// A published authorization: a label and the one subroutine that it gates.
#[derive(Debug, PartialEq, Eq)]
pub struct Authorization {
    pub label: String,
    pub subroutine: Subroutine,
}

/// The subroutine of a published authorization: steps that run all or none.
#[derive(Debug, PartialEq, Eq)]
pub struct Subroutine {
    pub atomic: AtomicSubroutine,
}

/// The steps of a subroutine, in the order in which they run.
#[derive(Debug, PartialEq, Eq)]
pub struct AtomicSubroutine {
    pub functions: Vec<Function>,
}

/// One step of a published subroutine.
#[derive(Debug, PartialEq, Eq)]
pub struct Function {
    pub message_details: MessageDetails,
}

/// The restriction on a step's message, kept as it came off the wire.
#[derive(Debug, PartialEq, Eq)]
pub struct MessageDetails {
    pub message: JsonValue,
}

/// What a pool-ratio constraint would hold: the bounds, as fixed-point
/// numbers of 18 decimals.
#[derive(Debug, Clone, Copy, PartialEq, Eq, Structural)]
pub struct DecimalRange {
    pub min: u128,
    pub max: u128,
}

/// What a library is asked to do.
#[derive(Debug, Clone, Copy, PartialEq, Eq, Structural)]
pub enum FunctionMsg {
    Split,
    ProvideDoubleSidedLiquidity { expected_pool_ratio_range: Option<DecimalRange> },
    WithdrawLiquidity { expected_pool_ratio_range: Option<DecimalRange> },
}

/// A message that the processor runs on behalf of an authorization.
#[derive(Debug, Clone, Copy, PartialEq, Eq, Structural)]
pub enum ProcessorMessage {
    CosmwasmExecuteMsg { msg: FunctionMsg },
}

/// A token that is in the vocabulary of operations.
pub open spec fn is_operation(token: Seq<char>) -> bool {
    operation_of(token) is Some
}

/// The suffix by which a label tells its phase.
pub open spec fn label_suffix(action: ProgramAction) -> Seq<char> {
    match action {
        ProgramAction::Deploy => "deploy"@,
        ProgramAction::Withdraw => "withdraw"@,
    }
}

/// An authorization belongs to a phase when its label ends with the
/// phase's suffix.
pub open spec fn in_phase(authorization: Authorization, action: ProgramAction) -> bool {
    is_suffix(label_suffix(action), authorization.label@)
}

/// A token that names a known operation.
pub open spec fn is_operation_token(token: JsonValue) -> bool {
    match token.text() {
        Some(text) => is_operation(text),
        None => false,
    }
}

/// The operations that one restriction asks to be included.
pub open spec fn restriction_identifiers(restriction: JsonValue) -> Seq<Seq<char>> {
    match restriction.member_items("must_be_included"@) {
        Some(tokens) => tokens.filter(|token: JsonValue| is_operation_token(token)).map_values(
            |token: JsonValue| token.text().unwrap(),
        ),
        None => Seq::empty(),
    }
}

/// The operations that a step's message is restricted to: none unless the
/// message is a dispatch.
pub open spec fn message_identifiers(message: JsonValue) -> Seq<Seq<char>> {
    if message.member_text("name"@) == Some(dispatch_name()) {
        match message.member_items("params_restrictions"@) {
            Some(restrictions) => restrictions.flat_map(
                |restriction: JsonValue| restriction_identifiers(restriction),
            ),
            None => Seq::empty(),
        }
    } else {
        Seq::empty()
    }
}

/// The operations of the steps of a subroutine, in the order of the steps.
pub open spec fn steps_identifiers(functions: Seq<Function>) -> Seq<Seq<char>> {
    functions.flat_map(|function: Function| message_identifiers(function.message_details.message))
}

/// The operations that an authorization gates, in order.
pub open spec fn functions_identifiers(authorization: Authorization) -> Seq<Seq<char>> {
    steps_identifiers(authorization.subroutine.atomic.functions@)
}

/// The message that asks for an operation, with no constraint on the pool ratio.
pub open spec fn operation_message(operation: Operation) -> ProcessorMessage {
    ProcessorMessage::CosmwasmExecuteMsg {
        msg: match operation {
            Operation::Split => FunctionMsg::Split,
            Operation::ProvideDoubleSidedLiquidity => FunctionMsg::ProvideDoubleSidedLiquidity {
                expected_pool_ratio_range: None,
            },
            Operation::WithdrawLiquidity => FunctionMsg::WithdrawLiquidity {
                expected_pool_ratio_range: None,
            },
        },
    }
}

/// The message for an identifier, where the identifier names an operation.
pub open spec fn identifier_message(identifier: Seq<char>) -> Option<ProcessorMessage> {
    match operation_of(identifier) {
        Some(operation) => Some(operation_message(operation)),
        None => None,
    }
}

/// The messages for a list of identifiers; an unknown identifier gives none.
pub open spec fn identifiers_messages(identifiers: Seq<Seq<char>>) -> Seq<ProcessorMessage> {
    identifiers.filter(|identifier: Seq<char>| identifier_message(identifier) is Some).map_values(
        |identifier: Seq<char>| identifier_message(identifier).unwrap(),
    )
}

/// Keeps the authorizations of one phase, in the order in which they came.
pub fn get_filtered_authorizations(authorizations: Vec<Authorization>, action: ProgramAction) -> (kept:
    Vec<Authorization>)
    ensures
        kept@ == authorizations@.filter(|authorization: Authorization| in_phase(authorization, action)),
{
    let suffix = match action {
        ProgramAction::Deploy => "deploy",
        ProgramAction::Withdraw => "withdraw",
    };
    let ghost all = authorizations@;
    let ghost pred = |authorization: Authorization| in_phase(authorization, action);
    let mut rest = authorizations;
    let mut kept: Vec<Authorization> = Vec::new();
    let ghost mut done: int = 0;
    proof {
        assert(all.take(0).filter(pred) =~= Seq::<Authorization>::empty()) by {
            reveal(Seq::filter);
        }
    }
    while rest.len() > 0
        invariant
            done + rest@.len() == all.len(),
            0 <= done,
            rest@ == all.skip(done),
            kept@ == all.take(done).filter(pred),
            suffix@ == label_suffix(action),
            pred == |authorization: Authorization| in_phase(authorization, action),
        decreases rest@.len(),
    {
        let authorization = rest.remove(0);
        proof {
            lemma_filter_take(all, pred, done);
            assert(authorization == all[done]);
            assert(rest@ =~= all.skip(done + 1));
        }
        if str_ends_with(authorization.label.as_str(), suffix) {
            kept.push(authorization);
        }
        proof {
            done = done + 1;
        }
    }
    proof {
        assert(all.take(done) =~= all);
    }
    kept
}

fn push_restriction_identifiers(restriction: &JsonValue, out: &mut Vec<String>)
    ensures
        texts(final(out)@) == texts(old(out)@) + restriction_identifiers(*restriction),
{
    let ghost before = texts(out@);
    match restriction.get_array("must_be_included") {
        None => {
            assert(texts(out@) =~= before + restriction_identifiers(*restriction));
        },
        Some(tokens) => {
            let ghost pred = |token: JsonValue| is_operation_token(token);
            let ghost name = |token: JsonValue| token.text().unwrap();
            let mut i: usize = 0;
            proof {
                assert(tokens@.take(0).filter(pred) =~= Seq::<JsonValue>::empty()) by {
                    reveal(Seq::filter);
                }
                assert(texts(out@) =~= before + tokens@.take(0).filter(pred).map_values(name));
            }
            while i < tokens.len()
                invariant
                    i <= tokens.len(),
                    texts(out@) == before + tokens@.take(i as int).filter(pred).map_values(name),
                    pred == |token: JsonValue| is_operation_token(token),
                    name == |token: JsonValue| token.text().unwrap(),
                decreases tokens.len() - i,
            {
                let ghost kept = tokens@.take(i as int).filter(pred);
                proof {
                    lemma_filter_take(tokens@, pred, i as int);
                    if pred(tokens@[i as int]) {
                        assert(kept.push(tokens@[i as int]).map_values(name) =~= kept.map_values(
                            name,
                        ).push(name(tokens@[i as int])));
                    }
                }
                match tokens[i].as_str() {
                    None => {},
                    Some(token) => match Operation::from_identifier(token) {
                        Some(operation) => {
                            let identifier = String::from_str(operation.identifier());
                            proof {
                                lemma_texts_push(out@, identifier);
                            }
                            out.push(identifier);
                        },
                        None => {},
                    },
                }
                proof {
                    assert(texts(out@) =~= before + tokens@.take(i + 1).filter(pred).map_values(
                        name,
                    ));
                }
                i += 1;
            }
            proof {
                assert(tokens@.take(i as int) =~= tokens@);
            }
        },
    }
}

fn push_message_identifiers(message: &JsonValue, out: &mut Vec<String>)
    ensures
        texts(final(out)@) == texts(old(out)@) + message_identifiers(*message),
{
    let ghost before = texts(out@);
    let is_dispatch = match message.get_str("name") {
        Some(name) => str_equal(name, "process_function"),
        None => false,
    };
    if !is_dispatch {
        assert(texts(out@) =~= before + message_identifiers(*message));
        return ;
    }
    match message.get_array("params_restrictions") {
        None => {
            assert(texts(out@) =~= before + message_identifiers(*message));
        },
        Some(restrictions) => {
            let ghost each = |restriction: JsonValue| restriction_identifiers(restriction);
            let mut i: usize = 0;
            proof {
                assert(restrictions@.take(0).flat_map(each) =~= Seq::<Seq<char>>::empty());
                assert(texts(out@) =~= before + restrictions@.take(0).flat_map(each));
            }
            while i < restrictions.len()
                invariant
                    i <= restrictions.len(),
                    texts(out@) == before + restrictions@.take(i as int).flat_map(each),
                    each == |restriction: JsonValue| restriction_identifiers(restriction),
                decreases restrictions.len() - i,
            {
                proof {
                    lemma_flat_map_take(restrictions@, each, i as int);
                }
                push_restriction_identifiers(&restrictions[i], out);
                proof {
                    assert(texts(out@) =~= before + restrictions@.take(i + 1).flat_map(each));
                }
                i += 1;
            }
            proof {
                assert(restrictions@.take(i as int) =~= restrictions@);
            }
        },
    }
}

/// Reads the operations that an authorization gates. A step that is not a
/// dispatch, and a token that names no known operation, give nothing.
pub fn get_functions_identifiers(authorization: &Authorization) -> (res: Result<Vec<String>, Error>)
    ensures
        res matches Ok(identifiers) && texts(identifiers@) == functions_identifiers(
            *authorization,
        ),
{
    let functions = &authorization.subroutine.atomic.functions;
    let mut identifiers: Vec<String> = Vec::new();
    let ghost each = |function: Function| message_identifiers(function.message_details.message);
    let mut i: usize = 0;
    proof {
        assert(functions@.take(0).flat_map(each) =~= Seq::<Seq<char>>::empty());
        assert(texts(identifiers@) =~= functions@.take(0).flat_map(each));
    }
    while i < functions.len()
        invariant
            i <= functions.len(),
            texts(identifiers@) == functions@.take(i as int).flat_map(each),
            each == |function: Function| message_identifiers(function.message_details.message),
        decreases functions.len() - i,
    {
        proof {
            lemma_flat_map_take(functions@, each, i as int);
        }
        push_message_identifiers(&functions[i].message_details.message, &mut identifiers);
        i += 1;
    }
    proof {
        assert(functions@.take(i as int) =~= functions@);
    }
    Ok(identifiers)
}

/// Gives the message that asks for an operation.
pub fn message_for(operation: Operation) -> (message: ProcessorMessage)
    ensures
        message == operation_message(operation),
{
    ProcessorMessage::CosmwasmExecuteMsg {
        msg: match operation {
            Operation::Split => FunctionMsg::Split,
            Operation::ProvideDoubleSidedLiquidity => FunctionMsg::ProvideDoubleSidedLiquidity {
                expected_pool_ratio_range: None,
            },
            Operation::WithdrawLiquidity => FunctionMsg::WithdrawLiquidity {
                expected_pool_ratio_range: None,
            },
        },
    }
}

/// Gives the message for each identifier that names a known operation.
pub fn messages_for_identifiers(identifiers: &Vec<String>) -> (messages: Vec<ProcessorMessage>)
    ensures
        messages@ == identifiers_messages(texts(identifiers@)),
{
    let ghost all = texts(identifiers@);
    let ghost pred = |identifier: Seq<char>| identifier_message(identifier) is Some;
    let ghost make = |identifier: Seq<char>| identifier_message(identifier).unwrap();
    let mut messages: Vec<ProcessorMessage> = Vec::new();
    let mut i: usize = 0;
    proof {
        assert(all.take(0).filter(pred) =~= Seq::<Seq<char>>::empty()) by {
            reveal(Seq::filter);
        }
        assert(messages@ =~= all.take(0).filter(pred).map_values(make));
    }
    while i < identifiers.len()
        invariant
            i <= identifiers.len(),
            all == texts(identifiers@),
            messages@ == all.take(i as int).filter(pred).map_values(make),
            pred == |identifier: Seq<char>| identifier_message(identifier) is Some,
            make == |identifier: Seq<char>| identifier_message(identifier).unwrap(),
        decreases identifiers.len() - i,
    {
        let ghost kept = all.take(i as int).filter(pred);
        proof {
            lemma_filter_take(all, pred, i as int);
            assert(all[i as int] == identifiers@[i as int]@);
            if pred(all[i as int]) {
                assert(kept.push(all[i as int]).map_values(make) =~= kept.map_values(make).push(
                    make(all[i as int]),
                ));
            }
        }
        match Operation::from_identifier(identifiers[i].as_str()) {
            Some(operation) => {
                messages.push(message_for(operation));
            },
            None => {},
        }
        i += 1;
    }
    proof {
        assert(all.take(i as int) =~= all);
    }
    messages
}

/// Rebuilds the messages that an authorization lets through: one for each
/// operation that it gates, in order. It never fails.
pub fn create_execute_messages_for_authorization(authorization: &Authorization) -> (res: Result<
    Vec<ProcessorMessage>,
    Error,
>)
    ensures
        res matches Ok(messages) && {
            &&& messages@ == identifiers_messages(functions_identifiers(*authorization))
            &&& messages@.len() == functions_identifiers(*authorization).len()
            &&& forall|k: int|
                0 <= k < messages@.len() ==> Some(#[trigger] messages@[k]) == identifier_message(
                    functions_identifiers(*authorization)[k],
                )
        },
{
    proof {
        lemma_every_identifier_has_its_message(*authorization);
    }
    match get_functions_identifiers(authorization) {
        Ok(identifiers) => Ok(messages_for_identifiers(&identifiers)),
        Err(e) => Err(e),
    }
}

/// No token of the restriction names a known operation.
pub open spec fn names_no_operation(restriction: JsonValue) -> bool {
    match restriction.member_items("must_be_included"@) {
        Some(tokens) => forall|j: int|
            0 <= j < tokens.len() ==> !is_operation_token(#[trigger] tokens[j]),
        None => true,
    }
}

/// The message is the wire form of a step gated to one operation: a
/// dispatch with one restriction, whose tokens are the dispatch name and
/// the operation.
pub open spec fn gates(message: JsonValue, operation: Seq<char>) -> bool {
    &&& message.member_text("name"@) == Some(dispatch_name())
    &&& message.member_items("params_restrictions"@) matches Some(restrictions)
    &&& restrictions.len() == 1
    &&& restrictions[0].member_items("must_be_included"@) matches Some(tokens)
    &&& tokens.len() == 2
    &&& tokens[0].text() == Some(dispatch_name())
    &&& tokens[1].text() == Some(operation)
}

/// Every identifier that a restriction gives names a known operation.
pub proof fn lemma_restriction_identifiers_are_operations(restriction: JsonValue)
    ensures
        forall|k: int|
            0 <= k < restriction_identifiers(restriction).len() ==> is_operation(
                #[trigger] restriction_identifiers(restriction)[k],
            ),
{
    match restriction.member_items("must_be_included"@) {
        Some(tokens) => {
            let pred = |token: JsonValue| is_operation_token(token);
            tokens.filter_lemma(pred);
            assert forall|k: int|
                0 <= k < restriction_identifiers(restriction).len() implies is_operation(
                #[trigger] restriction_identifiers(restriction)[k],
            ) by {
                assert(pred(tokens.filter(pred)[k]));
            }
        },
        None => {},
    }
}

/// Every identifier that a message gives names a known operation.
pub proof fn lemma_message_identifiers_are_operations(message: JsonValue)
    ensures
        forall|k: int|
            0 <= k < message_identifiers(message).len() ==> is_operation(
                #[trigger] message_identifiers(message)[k],
            ),
{
    if message.member_text("name"@) == Some(dispatch_name()) {
        match message.member_items("params_restrictions"@) {
            Some(restrictions) => {
                let each = |restriction: JsonValue| restriction_identifiers(restriction);
                assert forall|i: int, j: int|
                    0 <= i < restrictions.len() && 0 <= j < each(
                        restrictions[i],
                    ).len() implies is_operation(#[trigger] each(restrictions[i])[j]) by {
                    lemma_restriction_identifiers_are_operations(restrictions[i]);
                }
                lemma_flat_map_all(restrictions, each, |token: Seq<char>| is_operation(token));
            },
            None => {},
        }
    }
}

/// Every identifier read off an authorization names a known operation,
/// so each has its message: the messages are as many as the identifiers,
/// and the message at each place is that of the identifier at that place.
pub proof fn lemma_every_identifier_has_its_message(authorization: Authorization)
    ensures
        forall|k: int|
            0 <= k < functions_identifiers(authorization).len() ==> is_operation(
                #[trigger] functions_identifiers(authorization)[k],
            ),
        identifiers_messages(functions_identifiers(authorization)).len()
            == functions_identifiers(authorization).len(),
        forall|k: int|
            0 <= k < functions_identifiers(authorization).len() ==> Some(
                #[trigger] identifiers_messages(functions_identifiers(authorization))[k],
            ) == identifier_message(functions_identifiers(authorization)[k]),
{
    let functions = authorization.subroutine.atomic.functions@;
    let each = |function: Function| message_identifiers(function.message_details.message);
    assert forall|i: int, j: int|
        0 <= i < functions.len() && 0 <= j < each(functions[i]).len() implies is_operation(
        #[trigger] each(functions[i])[j],
    ) by {
        lemma_message_identifiers_are_operations(functions[i].message_details.message);
    }
    lemma_flat_map_all(functions, each, |token: Seq<char>| is_operation(token));
    let identifiers = functions_identifiers(authorization);
    let pred = |identifier: Seq<char>| identifier_message(identifier) is Some;
    assert forall|k: int| 0 <= k < identifiers.len() implies pred(#[trigger] identifiers[k]) by {
        assert(is_operation(identifiers[k]));
    }
    lemma_filter_all(identifiers, pred);
}

/// A step whose message is not a dispatch gives no identifier.
pub proof fn lemma_foreign_step_gives_nothing(message: JsonValue)
    requires
        message.member_text("name"@) != Some(dispatch_name()),
    ensures
        message_identifiers(message) == Seq::<Seq<char>>::empty(),
{
}

/// A dispatch none of whose restriction tokens names a known operation
/// gives no identifier.
pub proof fn lemma_unknown_tokens_give_nothing(message: JsonValue)
    requires
        message.member_items("params_restrictions"@) matches Some(restrictions) ==> forall|i: int|
            0 <= i < restrictions.len() ==> names_no_operation(#[trigger] restrictions[i]),
    ensures
        message_identifiers(message) == Seq::<Seq<char>>::empty(),
{
    if message.member_text("name"@) == Some(dispatch_name()) {
        match message.member_items("params_restrictions"@) {
            Some(restrictions) => {
                let each = |restriction: JsonValue| restriction_identifiers(restriction);
                assert forall|i: int| 0 <= i < restrictions.len() implies (#[trigger] each(
                    restrictions[i],
                )).len() == 0 by {
                    assert(names_no_operation(restrictions[i]));
                    match restrictions[i].member_items("must_be_included"@) {
                        Some(tokens) => {
                            lemma_filter_none(
                                tokens,
                                |token: JsonValue| is_operation_token(token),
                            );
                        },
                        None => {},
                    }
                }
                lemma_flat_map_nothing(restrictions, each);
            },
            None => {},
        }
    }
}

/// A step that gives no identifier leaves the identifiers of a list of
/// steps as they are without it.
pub proof fn lemma_silent_step_contributes_nothing(
    before: Seq<Function>,
    step: Function,
    after: Seq<Function>,
)
    requires
        message_identifiers(step.message_details.message).len() == 0,
    ensures
        steps_identifiers(before + seq![step] + after) == steps_identifiers(before + after),
{
    let each = |function: Function| message_identifiers(function.message_details.message);
    lemma_flat_map_concat(before + seq![step], after, each);
    lemma_flat_map_concat(before, seq![step], each);
    lemma_flat_map_concat(before, after, each);
    lemma_flat_map_take(seq![step], each, 0);
    assert(seq![step].take(1) =~= seq![step]);
    assert(seq![step].take(0).flat_map(each) =~= Seq::<Seq<char>>::empty());
    assert(seq![step].flat_map(each) =~= Seq::<Seq<char>>::empty());
    assert(before.flat_map(each) + seq![step].flat_map(each) =~= before.flat_map(each));
}

/// The wire form of a step gated to one operation gives that operation
/// and nothing else.
pub proof fn lemma_gated_step_names_its_operation(message: JsonValue, operation: Seq<char>)
    requires
        gates(message, operation),
        is_operation(operation),
    ensures
        message_identifiers(message) == seq![operation],
{
    lemma_tokens_name_their_operations();
    let restrictions = message.member_items("params_restrictions"@).unwrap();
    let tokens = restrictions[0].member_items("must_be_included"@).unwrap();
    let pred = |token: JsonValue| is_operation_token(token);
    let name = |token: JsonValue| token.text().unwrap();
    let each = |restriction: JsonValue| restriction_identifiers(restriction);
    assert(tokens.take(0).filter(pred) =~= Seq::<JsonValue>::empty()) by {
        reveal(Seq::filter);
    }
    lemma_filter_take(tokens, pred, 0);
    lemma_filter_take(tokens, pred, 1);
    assert(tokens.take(2) =~= tokens);
    assert(!pred(tokens[0]));
    assert(pred(tokens[1]));
    assert(tokens.filter(pred) =~= seq![tokens[1]]);
    assert(tokens.filter(pred).map_values(name) =~= seq![operation]);
    lemma_flat_map_take(restrictions, each, 0);
    assert(restrictions.take(1) =~= restrictions);
    assert(restrictions.take(0).flat_map(each) =~= Seq::<Seq<char>>::empty());
    assert(restrictions.flat_map(each) =~= seq![operation]);
}

/// Where each step of a subroutine is the wire form of a step gated to
/// one operation, the identifiers read off it are those operations, in
/// the order of the steps.
pub proof fn lemma_gated_steps_name_their_operations(
    functions: Seq<Function>,
    operations: Seq<Seq<char>>,
)
    requires
        functions.len() == operations.len(),
        forall|i: int|
            0 <= i < functions.len() ==> gates(
                (#[trigger] functions[i]).message_details.message,
                operations[i],
            ) && is_operation(operations[i]),
    ensures
        steps_identifiers(functions) == operations,
    decreases functions.len(),
{
    let each = |function: Function| message_identifiers(function.message_details.message);
    if functions.len() == 0 {
        assert(functions.flat_map(each) =~= Seq::<Seq<char>>::empty());
        assert(operations =~= Seq::<Seq<char>>::empty());
    } else {
        let n = functions.len() - 1;
        assert forall|i: int| 0 <= i < functions.take(n).len() implies gates(
            (#[trigger] functions.take(n)[i]).message_details.message,
            operations.take(n)[i],
        ) && is_operation(operations.take(n)[i]) by {
            assert(functions.take(n)[i] == functions[i]);
        }
        lemma_gated_steps_name_their_operations(functions.take(n), operations.take(n));
        lemma_flat_map_take(functions, each, n);
        assert(functions.take(n + 1) =~= functions);
        assert(gates(functions[n].message_details.message, operations[n]));
        lemma_gated_step_names_its_operation(functions[n].message_details.message, operations[n]);
        assert(operations.take(n) + seq![operations[n]] =~= operations);
    }
}

/// The restriction message of a step record: the member `message` of its
/// member `message_details`.
pub open spec fn function_message(record: JsonValue) -> Option<JsonValue> {
    match record.member("message_details"@) {
        Some(details) => details.member("message"@),
        None => None,
    }
}

/// The step records of a subroutine record: the items of the member
/// `functions` of its member `atomic`.
pub open spec fn subroutine_steps(record: JsonValue) -> Option<Seq<JsonValue>> {
    match record.member("atomic"@) {
        Some(atomic) => atomic.member_items("functions"@),
        None => None,
    }
}

/// The step records of an authorization record.
pub open spec fn authorization_steps(record: JsonValue) -> Option<Seq<JsonValue>> {
    match record.member("subroutine"@) {
        Some(subroutine) => subroutine_steps(subroutine),
        None => None,
    }
}

/// Every record of the list is a step record.
pub open spec fn are_function_records(records: Seq<JsonValue>) -> bool {
    forall|i: int| 0 <= i < records.len() ==> function_message(#[trigger] records[i]) is Some
}

/// The record has the shape of an authorization: a text `label` and a
/// subroutine whose steps each carry a message. Other members are ignored.
pub open spec fn is_authorization_record(record: JsonValue) -> bool {
    &&& record.member_text("label"@) is Some
    &&& authorization_steps(record) matches Some(steps)
    &&& are_function_records(steps)
}

/// The steps hold the messages of the step records, one for one.
pub open spec fn read_as_functions(functions: Seq<Function>, records: Seq<JsonValue>) -> bool {
    &&& functions.len() == records.len()
    &&& forall|i: int|
        0 <= i < records.len() ==> function_message(records[i]) == Some(
            (#[trigger] functions[i]).message_details.message,
        )
}

/// The authorization holds what the record says.
pub open spec fn reads_as(authorization: Authorization, record: JsonValue) -> bool {
    &&& record.member_text("label"@) == Some(authorization.label@)
    &&& authorization_steps(record) matches Some(steps)
    &&& read_as_functions(authorization.subroutine.atomic.functions@, steps)
}

/// Every record of the list has the shape of an authorization.
pub open spec fn are_authorization_records(records: Seq<JsonValue>) -> bool {
    forall|i: int| 0 <= i < records.len() ==> is_authorization_record(#[trigger] records[i])
}

/// The value has the shape of the contract's answer: a member `data`
/// that lists authorization records.
pub open spec fn is_authorizations_response(response: JsonValue) -> bool {
    &&& response.member_items("data"@) matches Some(records)
    &&& are_authorization_records(records)
}

fn read_functions(records: Vec<JsonValue>) -> (res: Option<Vec<Function>>)
    ensures
        res is Some <==> are_function_records(records@),
        res matches Some(functions) ==> read_as_functions(functions@, records@),
{
    let ghost all = records@;
    let ghost mut done: int = 0;
    let mut rest = records;
    let mut functions: Vec<Function> = Vec::new();
    while rest.len() > 0
        invariant
            0 <= done,
            all == records@,
            done + rest@.len() == all.len(),
            rest@ == all.skip(done),
            functions@.len() == done,
            forall|i: int|
                0 <= i < done ==> function_message(all[i]) == Some(
                    (#[trigger] functions@[i]).message_details.message,
                ),
        decreases rest@.len(),
    {
        let record = rest.remove(0);
        proof {
            assert(record == all[done]);
            assert(rest@ =~= all.skip(done + 1));
        }
        let message = match record.take_member("message_details") {
            Some(details) => details.take_member("message"),
            None => None,
        };
        match message {
            Some(message) => {
                functions.push(Function { message_details: MessageDetails { message } });
            },
            None => {
                assert(function_message(all[done]) is None);
                return None;
            },
        }
        proof {
            done = done + 1;
        }
    }
    proof {
        assert forall|i: int| 0 <= i < all.len() implies function_message(#[trigger] all[i]) is Some by {
            assert(function_message(all[i]) == Some(functions@[i].message_details.message));
        }
    }
    Some(functions)
}

fn read_authorization(record: JsonValue) -> (res: Option<Authorization>)
    ensures
        res is Some <==> is_authorization_record(record),
        res matches Some(authorization) ==> reads_as(authorization, record),
{
    let label = match record.get_str("label") {
        Some(label) => String::from_str(label),
        None => {
            return None;
        },
    };
    let steps = match record.take_member("subroutine") {
        Some(subroutine) => match subroutine.take_member("atomic") {
            Some(atomic) => match atomic.take_member("functions") {
                Some(functions) => functions.into_array(),
                None => None,
            },
            None => None,
        },
        None => None,
    };
    match steps {
        Some(steps) => match read_functions(steps) {
            Some(functions) => Some(
                Authorization { label, subroutine: Subroutine { atomic: AtomicSubroutine { functions } } },
            ),
            None => None,
        },
        None => None,
    }
}

/// Reads the answer of the authorization contract. Records are read by
/// the names of their members; members that are not asked for are
/// ignored. Any other shape is refused.
pub fn read_authorizations_response(response: JsonValue) -> (res: Result<
    AuthorizationsResponse,
    Error,
>)
    ensures
        res is Ok <==> is_authorizations_response(response),
        res matches Err(e) ==> e == Error::MalformedAuthorizationData,
        res matches Ok(read) ==> {
            &&& response.member_items("data"@) matches Some(records)
            &&& read.data@.len() == records.len()
            &&& forall|i: int| 0 <= i < records.len() ==> reads_as(#[trigger] read.data@[i], records[i])
        },
{
    let records = match response.take_member("data") {
        Some(data) => match data.into_array() {
            Some(records) => records,
            None => {
                return Err(Error::MalformedAuthorizationData);
            },
        },
        None => {
            return Err(Error::MalformedAuthorizationData);
        },
    };
    let ghost all = records@;
    let ghost mut done: int = 0;
    let mut rest = records;
    let mut authorizations: Vec<Authorization> = Vec::new();
    while rest.len() > 0
        invariant
            0 <= done,
            response.member_items("data"@) == Some(all),
            done + rest@.len() == all.len(),
            rest@ == all.skip(done),
            authorizations@.len() == done,
            forall|i: int| 0 <= i < done ==> reads_as(#[trigger] authorizations@[i], all[i]),
            forall|i: int| 0 <= i < done ==> is_authorization_record(#[trigger] all[i]),
        decreases rest@.len(),
    {
        let record = rest.remove(0);
        proof {
            assert(record == all[done]);
            assert(rest@ =~= all.skip(done + 1));
        }
        match read_authorization(record) {
            Some(authorization) => {
                authorizations.push(authorization);
            },
            None => {
                assert(0 <= done < all.len());
                assert(!is_authorization_record(all[done]));
                return Err(Error::MalformedAuthorizationData);
            },
        }
        proof {
            done = done + 1;
        }
    }
    Ok(AuthorizationsResponse { data: authorizations })
}

/// Reads the authorizations out of the answer of the authorization contract.
pub fn get_authorizations(response: JsonValue) -> (res: Result<Vec<Authorization>, Error>)
    ensures
        res is Ok <==> is_authorizations_response(response),
        res matches Err(e) ==> e == Error::MalformedAuthorizationData,
        res matches Ok(authorizations) ==> {
            &&& response.member_items("data"@) matches Some(records)
            &&& authorizations@.len() == records.len()
            &&& forall|i: int|
                0 <= i < records.len() ==> reads_as(#[trigger] authorizations@[i], records[i])
        },
{
    match read_authorizations_response(response) {
        Ok(read) => Ok(read.data),
        Err(e) => Err(e),
    }
}

} // verus!
