use liquidity_deployment_tool::authorization::{
    create_execute_messages_for_authorization, get_authorizations, get_filtered_authorizations,
    get_functions_identifiers, message_for, messages_for_identifiers,
    read_authorizations_response, AtomicSubroutine, Authorization, AuthorizationsResponse,
    Function, FunctionMsg, MessageDetails, ProcessorMessage, Subroutine,
};
use liquidity_deployment_tool::cli::ProgramAction;
use liquidity_deployment_tool::error::Error;
use liquidity_deployment_tool::json::JsonValue;
use liquidity_deployment_tool::subroutine::Operation;

fn text(s: &str) -> JsonValue {
    JsonValue::Text(s.to_string())
}

fn object(members: Vec<(&str, JsonValue)>) -> JsonValue {
    JsonValue::Object(members.into_iter().map(|(k, v)| (k.to_string(), v)).collect())
}

fn texts(tokens: &[&str]) -> JsonValue {
    JsonValue::Array(tokens.iter().map(|t| text(t)).collect())
}

fn must_include(tokens: &[&str]) -> JsonValue {
    object(vec![("must_be_included", texts(tokens))])
}

fn message(name: &str, restrictions: Vec<JsonValue>) -> JsonValue {
    object(vec![("name", text(name)), ("params_restrictions", JsonValue::Array(restrictions))])
}

fn gated(operation: &str) -> JsonValue {
    message("process_function", vec![must_include(&["process_function", operation])])
}

fn authorization(label: &str, messages: Vec<JsonValue>) -> Authorization {
    Authorization {
        label: label.to_string(),
        subroutine: Subroutine {
            atomic: AtomicSubroutine {
                functions: messages
                    .into_iter()
                    .map(|message| Function { message_details: MessageDetails { message } })
                    .collect(),
            },
        },
    }
}

fn labels(list: &[Authorization]) -> Vec<&str> {
    list.iter().map(|a| a.label.as_str()).collect()
}

const SPLIT: ProcessorMessage = ProcessorMessage::CosmwasmExecuteMsg { msg: FunctionMsg::Split };
const PROVIDE: ProcessorMessage = ProcessorMessage::CosmwasmExecuteMsg {
    msg: FunctionMsg::ProvideDoubleSidedLiquidity { expected_pool_ratio_range: None },
};
const WITHDRAW: ProcessorMessage = ProcessorMessage::CosmwasmExecuteMsg {
    msg: FunctionMsg::WithdrawLiquidity { expected_pool_ratio_range: None },
};

#[test]
fn filter_by_deploy_keeps_the_deploy_label() {
    let all = vec![
        authorization("prog_deploy", vec![]),
        authorization("prog_withdraw", vec![]),
        authorization("other", vec![]),
    ];
    let kept = get_filtered_authorizations(all, ProgramAction::Deploy);
    assert_eq!(labels(&kept), vec!["prog_deploy"]);
}

#[test]
fn filter_by_withdraw_keeps_the_withdraw_label() {
    let all = vec![
        authorization("prog_deploy", vec![]),
        authorization("prog_withdraw", vec![]),
        authorization("other", vec![]),
    ];
    let kept = get_filtered_authorizations(all, ProgramAction::Withdraw);
    assert_eq!(labels(&kept), vec!["prog_withdraw"]);
}

#[test]
fn filter_of_nothing_is_nothing() {
    assert_eq!(get_filtered_authorizations(vec![], ProgramAction::Deploy), vec![]);
    assert_eq!(get_filtered_authorizations(vec![], ProgramAction::Withdraw), vec![]);
}

#[test]
fn filter_without_a_match_is_empty() {
    let all = vec![authorization("other", vec![]), authorization("deploy_", vec![])];
    assert_eq!(get_filtered_authorizations(all, ProgramAction::Deploy), vec![]);
}

#[test]
fn filter_keeps_the_order_and_the_contents() {
    let all = vec![
        authorization("b_deploy", vec![gated("split")]),
        authorization("x_withdraw", vec![]),
        authorization("deploy", vec![]),
        authorization("a_deploy", vec![gated("provide_double_sided_liquidity")]),
        authorization("Deploy", vec![]),
        authorization("a_deployed", vec![]),
        authorization("a-redeploy", vec![]),
    ];
    let kept = get_filtered_authorizations(all, ProgramAction::Deploy);
    assert_eq!(
        kept,
        vec![
            authorization("b_deploy", vec![gated("split")]),
            authorization("deploy", vec![]),
            authorization("a_deploy", vec![gated("provide_double_sided_liquidity")]),
            authorization("a-redeploy", vec![]),
        ]
    );
}

#[test]
fn reconstruction_of_a_deploy_subroutine() {
    let a = authorization(
        "prog_deploy",
        vec![
            gated("split"),
            gated("provide_double_sided_liquidity"),
            gated("provide_double_sided_liquidity"),
        ],
    );
    assert_eq!(
        get_functions_identifiers(&a),
        Ok(vec![
            "split".to_string(),
            "provide_double_sided_liquidity".to_string(),
            "provide_double_sided_liquidity".to_string(),
        ])
    );
    assert_eq!(
        create_execute_messages_for_authorization(&a),
        Ok(vec![SPLIT, PROVIDE, PROVIDE])
    );
}

#[test]
fn reconstruction_of_a_withdraw_subroutine() {
    let a = authorization(
        "prog_withdraw",
        vec![gated("withdraw_liquidity"), gated("withdraw_liquidity")],
    );
    assert_eq!(
        get_functions_identifiers(&a),
        Ok(vec!["withdraw_liquidity".to_string(), "withdraw_liquidity".to_string()])
    );
    assert_eq!(create_execute_messages_for_authorization(&a), Ok(vec![WITHDRAW, WITHDRAW]));
}

#[test]
fn reconstruction_ignores_members_it_does_not_know() {
    let step = object(vec![
        ("future", JsonValue::Bool(true)),
        ("name", text("process_function")),
        (
            "params_restrictions",
            JsonValue::Array(vec![object(vec![
                ("note", JsonValue::Null),
                ("must_be_included", texts(&["process_function", "provide_double_sided_liquidity"])),
                ("expected_pool_ratio_range", object(vec![("min", text("0.9"))])),
            ])]),
        ),
    ]);
    let a = authorization("x", vec![step]);
    assert_eq!(create_execute_messages_for_authorization(&a), Ok(vec![PROVIDE]));
}

#[test]
fn a_step_under_another_name_is_skipped() {
    let a = authorization(
        "x",
        vec![
            message("migrate", vec![must_include(&["migrate", "split"])]),
            gated("split"),
            message("Process_Function", vec![must_include(&["withdraw_liquidity"])]),
            object(vec![("params_restrictions", JsonValue::Array(vec![must_include(&["split"])]))]),
            object(vec![
                ("name", JsonValue::Number("1".to_string())),
                ("params_restrictions", JsonValue::Array(vec![must_include(&["split"])])),
            ]),
        ],
    );
    assert_eq!(get_functions_identifiers(&a), Ok(vec!["split".to_string()]));
    assert_eq!(create_execute_messages_for_authorization(&a), Ok(vec![SPLIT]));
}

#[test]
fn a_step_without_a_known_token_is_skipped() {
    let a = authorization(
        "x",
        vec![
            gated("swap"),
            message("process_function", vec![must_include(&[])]),
            message("process_function", vec![]),
            object(vec![("name", text("process_function"))]),
            object(vec![("name", text("process_function")), ("params_restrictions", JsonValue::Null)]),
            message(
                "process_function",
                vec![object(vec![("cannot_be_included", texts(&["split"]))])],
            ),
            message(
                "process_function",
                vec![object(vec![("must_be_included", text("split"))]), JsonValue::Null],
            ),
            message(
                "process_function",
                vec![object(vec![(
                    "must_be_included",
                    JsonValue::Array(vec![
                        JsonValue::Null,
                        JsonValue::Number("7".to_string()),
                        texts(&["split"]),
                        text("Split"),
                        text(" split"),
                    ]),
                )])],
            ),
            JsonValue::Null,
            gated("withdraw_liquidity"),
        ],
    );
    assert_eq!(get_functions_identifiers(&a), Ok(vec!["withdraw_liquidity".to_string()]));
    assert_eq!(create_execute_messages_for_authorization(&a), Ok(vec![WITHDRAW]));
}

#[test]
fn an_empty_subroutine_gives_no_message() {
    let a = authorization("x", vec![]);
    assert_eq!(get_functions_identifiers(&a), Ok(vec![]));
    assert_eq!(create_execute_messages_for_authorization(&a), Ok(vec![]));
}

#[test]
fn every_known_token_of_every_restriction_counts() {
    let a = authorization(
        "x",
        vec![message(
            "process_function",
            vec![
                must_include(&["withdraw_liquidity", "process_function", "split"]),
                must_include(&["unknown"]),
                must_include(&["provide_double_sided_liquidity"]),
            ],
        )],
    );
    assert_eq!(
        create_execute_messages_for_authorization(&a),
        Ok(vec![WITHDRAW, SPLIT, PROVIDE])
    );
}

#[test]
fn messages_for_identifiers_skips_the_unknown() {
    let identifiers = vec![
        "withdraw_liquidity".to_string(),
        "process_function".to_string(),
        "split".to_string(),
        "".to_string(),
        "provide_double_sided_liquidity".to_string(),
    ];
    assert_eq!(messages_for_identifiers(&identifiers), vec![WITHDRAW, SPLIT, PROVIDE]);
    assert_eq!(messages_for_identifiers(&vec![]), vec![]);
}

fn record(label: JsonValue, steps: Vec<JsonValue>) -> JsonValue {
    object(vec![
        ("label", label),
        ("mode", text("permissionless")),
        (
            "subroutine",
            object(vec![(
                "atomic",
                object(vec![("functions", JsonValue::Array(steps)), ("retry_logic", JsonValue::Null)]),
            )]),
        ),
    ])
}

fn step(message: JsonValue) -> JsonValue {
    object(vec![
        ("domain", text("main")),
        (
            "message_details",
            object(vec![("message_type", text("cosmwasm_execute_msg")), ("message", message)]),
        ),
    ])
}

#[test]
fn authorizations_are_read_from_the_answer() {
    let response = object(vec![(
        "data",
        JsonValue::Array(vec![
            record(text("prog_deploy"), vec![step(gated("split")), step(JsonValue::Null)]),
            record(text("prog_withdraw"), vec![]),
        ]),
    )]);
    assert_eq!(
        get_authorizations(response),
        Ok(vec![
            authorization("prog_deploy", vec![gated("split"), JsonValue::Null]),
            authorization("prog_withdraw", vec![]),
        ])
    );
    let none = object(vec![("data", JsonValue::Array(vec![]))]);
    assert_eq!(get_authorizations(none), Ok(vec![]));
}

#[test]
fn a_malformed_answer_is_refused() {
    let bad = Err(Error::MalformedAuthorizationData);
    assert_eq!(get_authorizations(JsonValue::Null), bad);
    assert_eq!(get_authorizations(JsonValue::Array(vec![])), bad);
    assert_eq!(get_authorizations(object(vec![])), bad);
    assert_eq!(get_authorizations(object(vec![("data", text("none"))])), bad);
    let unlabelled = object(vec![(
        "data",
        JsonValue::Array(vec![
            record(text("fine"), vec![]),
            record(JsonValue::Number("1".to_string()), vec![]),
        ]),
    )]);
    assert_eq!(get_authorizations(unlabelled), bad);
    let no_subroutine =
        object(vec![("data", JsonValue::Array(vec![object(vec![("label", text("x"))])]))]);
    assert_eq!(get_authorizations(no_subroutine), bad);
    let no_functions = object(vec![(
        "data",
        JsonValue::Array(vec![object(vec![
            ("label", text("x")),
            ("subroutine", object(vec![("atomic", object(vec![]))])),
        ])]),
    )]);
    assert_eq!(get_authorizations(no_functions), bad);
    let no_message = object(vec![(
        "data",
        JsonValue::Array(vec![record(
            text("x"),
            vec![step(gated("split")), object(vec![("message_details", object(vec![]))])],
        )]),
    )]);
    assert_eq!(get_authorizations(no_message), bad);
}

#[test]
fn each_operation_has_its_message_without_a_ratio_constraint() {
    assert_eq!(message_for(Operation::Split), SPLIT);
    assert_eq!(message_for(Operation::ProvideDoubleSidedLiquidity), PROVIDE);
    assert_eq!(message_for(Operation::WithdrawLiquidity), WITHDRAW);
}

#[test]
fn the_answer_is_read_as_a_whole() {
    let response = object(vec![
        ("data", JsonValue::Array(vec![record(text("p_deploy"), vec![step(gated("split"))])])),
        ("height", text("12")),
    ]);
    assert_eq!(
        read_authorizations_response(response),
        Ok(AuthorizationsResponse { data: vec![authorization("p_deploy", vec![gated("split")])] })
    );
    assert_eq!(
        read_authorizations_response(object(vec![("Data", JsonValue::Array(vec![]))])),
        Err(Error::MalformedAuthorizationData)
    );
}
