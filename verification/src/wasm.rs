use crate::config::Config;
use crate::error::Error;
use crate::json::JsonValue;
use crate::node_cmd::{
    build_query_flags, build_tx_flags, build_wasm_instantiate_flags, query_flags, tx_flags,
    wasm_instantiate_flags,
};
use crate::text::{
    decimal_text, hex_bytes, hex_text, is_hex, lemma_hex_text_round_trip, str_equal, to_hex,
    u64_to_string,
};
use sha2::Digest;
use vstd::prelude::*;
use vstd::string::*;

verus! {

/// The SHA-256 digest of a sequence of bytes.
pub uninterp spec fn sha256(data: Seq<u8>) -> Seq<u8>;

/// Wraps `sha2::Sha256` (`new`, `update`, `finalize`): the digest of
/// `data`, which holds 32 bytes.
#[verifier::external_body]
fn sha256_digest(data: &[u8]) -> (digest: Vec<u8>)
    ensures
        digest@ == sha256(data@),
        digest@.len() == 32,
{
    let mut hasher = sha2::Sha256::new();
    hasher.update(data);
    hasher.finalize().to_vec()
}

/// The command line that executes `msg` on a contract.
pub open spec fn execute_command(config: Config, contract_address: Seq<char>, msg: Seq<char>)
    -> Seq<char> {
    config.neutron_binary@ + " tx wasm execute "@ + contract_address + " '"@ + msg + "' "@
        + tx_flags(config)
}

/// The command line that instantiates the code `code_id` with `msg`: at
/// an address that the chain chooses, or, with a salt, at the address
/// that the salt fixes.
pub open spec fn instantiate_command(
    config: Config,
    code_id: u64,
    msg: Seq<char>,
    label: Seq<char>,
    salt: Option<Seq<char>>,
) -> Seq<char> {
    match salt {
        Some(salt) => config.neutron_binary@ + " tx wasm instantiate2 "@ + decimal_text(
            code_id as nat,
        ) + " '"@ + msg + "' "@ + salt + " "@ + wasm_instantiate_flags(config, label) + " "@
            + tx_flags(config),
        None => config.neutron_binary@ + " tx wasm instantiate "@ + decimal_text(code_id as nat)
            + " '"@ + msg + "' "@ + wasm_instantiate_flags(config, label) + " "@ + tx_flags(
            config,
        ),
    }
}

/// The command line that asks the node for a transaction by its hash.
pub open spec fn tx_query(config: Config, tx_hash: Seq<char>) -> Seq<char> {
    config.neutron_binary@ + " q tx "@ + tx_hash + " --node "@ + config.neutron_rpc@
        + " --output json"@
}

/// The file into which the code `code_id` is downloaded.
pub open spec fn code_file(code_id: u64) -> Seq<char> {
    "/tmp/wasm_code_"@ + decimal_text(code_id as nat) + ".wasm"@
}

/// The command line that downloads the code `code_id` into its file.
pub open spec fn code_download(config: Config, code_id: u64) -> Seq<char> {
    config.neutron_binary@ + " q wasm code "@ + decimal_text(code_id as nat) + " "@ + code_file(
        code_id,
    ) + " "@ + query_flags(config)
}

/// The query that asks an authorization contract for its first hundred
/// authorizations.
pub open spec fn authorizations_query_msg() -> Seq<char> {
    "{\n            \"authorizations\": {\n                \"start_after\": null,\n                \"limit\": 100\n            }\n        }"@
}

/// The command line that sends that query to the contract at `address`.
pub open spec fn authorizations_query(config: Config, address: Seq<char>) -> Seq<char> {
    config.neutron_binary@ + " q wasm contract-state smart "@ + address + " '"@
        + authorizations_query_msg() + "' "@ + query_flags(config)
}

/// The address that an event attribute announces: the value of an
/// attribute whose key is `_contract_address`.
pub open spec fn attribute_address(attribute: JsonValue) -> Option<Seq<char>> {
    if attribute.member_text("key"@) == Some("_contract_address"@) {
        attribute.member_text("value"@)
    } else {
        None
    }
}

/// The first address that the attributes at or after `start` announce.
pub open spec fn first_address(attributes: Seq<JsonValue>, start: int) -> Option<Seq<char>>
    decreases attributes.len() - start,
{
    if start < 0 || start >= attributes.len() {
        None
    } else {
        match attribute_address(attributes[start]) {
            Some(address) => Some(address),
            None => first_address(attributes, start + 1),
        }
    }
}

/// The first address that an event announces; none where the event has
/// no list of attributes.
pub open spec fn event_address(event: JsonValue) -> Option<Seq<char>> {
    match event.member_items("attributes"@) {
        Some(attributes) => first_address(attributes, 0),
        None => None,
    }
}

/// The first address that the events at or after `start` announce.
pub open spec fn first_event_address(events: Seq<JsonValue>, start: int) -> Option<Seq<char>>
    decreases events.len() - start,
{
    if start < 0 || start >= events.len() {
        None
    } else {
        match event_address(events[start]) {
            Some(address) => Some(address),
            None => first_event_address(events, start + 1),
        }
    }
}

/// The address of the contract that a transaction created.
pub open spec fn contract_address(tx_data: JsonValue) -> Result<Seq<char>, Error> {
    match tx_data.member_items("events"@) {
        None => Err(Error::MissingEvents),
        Some(events) => match first_event_address(events, 0) {
            Some(address) => Ok(address),
            None => Err(Error::AddressNotFound),
        },
    }
}

/// The hash under which a broadcast transaction can be found.
pub open spec fn tx_hash(tx_output: JsonValue) -> Result<Seq<char>, Error> {
    match tx_output.member_text("txhash"@) {
        Some(hash) => Ok(hash),
        None => Err(Error::MissingTxHash),
    }
}

/// Gives the command line that executes `msg` on the contract at
/// `contract_address`.
pub fn execute_wasm_contract(contract_address: &str, msg: &str, config: &Config) -> (command:
    String)
    ensures
        command@ == execute_command(*config, contract_address@, msg@),
{
    let flags = build_tx_flags(config);
    let mut command = config.neutron_binary.clone();
    command.append(" tx wasm execute ");
    command.append(contract_address);
    command.append(" '");
    command.append(msg);
    command.append("' ");
    command.append(flags.as_str());
    command
}

/// Gives the command line that instantiates the code `code_id` at an
/// address that the chain chooses.
pub fn instantiate_wasm_contract(code_id: u64, msg: &str, config: &Config, label: &str) -> (command:
    String)
    ensures
        command@ == instantiate_command(*config, code_id, msg@, label@, None),
{
    instantiate_wasm_contract_internal(code_id, msg, config, label, None)
}

/// Gives the command line that instantiates the code `code_id` at the
/// address that `salt` fixes.
pub fn instantiate2_wasm_contract(
    code_id: u64,
    msg: &str,
    config: &Config,
    label: &str,
    salt: &str,
) -> (command: String)
    ensures
        command@ == instantiate_command(*config, code_id, msg@, label@, Some(salt@)),
{
    instantiate_wasm_contract_internal(code_id, msg, config, label, Some(salt))
}

/// Gives the command line of either kind of instantiation.
pub fn instantiate_wasm_contract_internal(
    code_id: u64,
    msg: &str,
    config: &Config,
    label: &str,
    salt: Option<&str>,
) -> (command: String)
    ensures
        command@ == instantiate_command(
            *config,
            code_id,
            msg@,
            label@,
            match salt {
                Some(salt) => Some(salt@),
                None => None,
            },
        ),
{
    let flags = build_tx_flags(config);
    let init_flags = build_wasm_instantiate_flags(config, label);
    let id = u64_to_string(code_id);
    let mut command = config.neutron_binary.clone();
    match salt {
        Some(salt) => {
            command.append(" tx wasm instantiate2 ");
            command.append(id.as_str());
            command.append(" '");
            command.append(msg);
            command.append("' ");
            command.append(salt);
            command.append(" ");
        },
        None => {
            command.append(" tx wasm instantiate ");
            command.append(id.as_str());
            command.append(" '");
            command.append(msg);
            command.append("' ");
        },
    }
    command.append(init_flags.as_str());
    command.append(" ");
    command.append(flags.as_str());
    command
}

/// Gives the command line that asks the node for the transaction `tx_hash`.
pub fn tx_query_command(config: &Config, tx_hash: &str) -> (command: String)
    ensures
        command@ == tx_query(*config, tx_hash@),
{
    let mut command = config.neutron_binary.clone();
    command.append(" q tx ");
    command.append(tx_hash);
    command.append(" --node ");
    command.append(config.neutron_rpc.as_str());
    command.append(" --output json");
    command
}

/// Reads the transaction hash out of the answer to a broadcast.
pub fn extract_tx_hash(tx_output: &JsonValue) -> (res: Result<String, Error>)
    ensures
        match res {
            Ok(hash) => tx_hash(*tx_output) == Ok::<Seq<char>, Error>(hash@),
            Err(e) => tx_hash(*tx_output) == Err::<Seq<char>, Error>(e),
        },
{
    match tx_output.get_str("txhash") {
        Some(hash) => Ok(String::from_str(hash)),
        None => Err(Error::MissingTxHash),
    }
}

fn find_attribute_address(attributes: &Vec<JsonValue>) -> (res: Option<String>)
    ensures
        match res {
            Some(address) => first_address(attributes@, 0) == Some(address@),
            None => first_address(attributes@, 0) is None,
        },
{
    let mut i: usize = 0;
    while i < attributes.len()
        invariant
            i <= attributes.len(),
            first_address(attributes@, 0) == first_address(attributes@, i as int),
        decreases attributes.len() - i,
    {
        let attribute = &attributes[i];
        let announces = match attribute.get_str("key") {
            Some(key) => str_equal(key, "_contract_address"),
            None => false,
        };
        if announces {
            match attribute.get_str("value") {
                Some(value) => {
                    return Some(String::from_str(value));
                },
                None => {},
            }
        }
        i += 1;
    }
    None
}

/// Finds the address of the new contract among the events of the
/// transaction that created it: the value of the first attribute, in the
/// order of the events, whose key is `_contract_address`.
pub fn find_contract_address(tx_data: &JsonValue) -> (res: Result<String, Error>)
    ensures
        match res {
            Ok(address) => contract_address(*tx_data) == Ok::<Seq<char>, Error>(address@),
            Err(e) => contract_address(*tx_data) == Err::<Seq<char>, Error>(e),
        },
{
    let events = match tx_data.get_array("events") {
        Some(events) => events,
        None => {
            return Err(Error::MissingEvents);
        },
    };
    let mut i: usize = 0;
    while i < events.len()
        invariant
            i <= events.len(),
            tx_data.member_items("events"@) == Some(events@),
            first_event_address(events@, 0) == first_event_address(events@, i as int),
        decreases events.len() - i,
    {
        match events[i].get_array("attributes") {
            Some(attributes) => {
                match find_attribute_address(attributes) {
                    Some(address) => {
                        return Ok(address);
                    },
                    None => {},
                }
            },
            None => {},
        }
        i += 1;
    }
    Err(Error::AddressNotFound)
}

/// Gives the name of the file into which the code `code_id` is downloaded.
pub fn code_file_name(code_id: u64) -> (name: String)
    ensures
        name@ == code_file(code_id),
{
    let id = u64_to_string(code_id);
    let mut name = String::from_str("/tmp/wasm_code_");
    name.append(id.as_str());
    name.append(".wasm");
    name
}

/// Gives the command line that downloads the code `code_id` into its file.
pub fn code_download_command(config: &Config, code_id: u64) -> (command: String)
    ensures
        command@ == code_download(*config, code_id),
{
    let id = u64_to_string(code_id);
    let file = code_file_name(code_id);
    let flags = build_query_flags(config);
    let mut command = config.neutron_binary.clone();
    command.append(" q wasm code ");
    command.append(id.as_str());
    command.append(" ");
    command.append(file.as_str());
    command.append(" ");
    command.append(flags.as_str());
    command
}

/// Gives the hash by which the chain knows a piece of code: its SHA-256
/// digest, in hexadecimal.
pub fn get_code_hash(wasm_bytes: &[u8]) -> (hash: String)
    ensures
        hash@ == hex_text(sha256(wasm_bytes@)),
        is_hex(hash@),
        hex_bytes(hash@) == sha256(wasm_bytes@),
        hex_bytes(hash@).len() == 32,
{
    let digest = sha256_digest(wasm_bytes);
    proof {
        lemma_hex_text_round_trip(digest@);
    }
    to_hex(digest.as_slice())
}

/// Gives the command line that asks the authorization contract at
/// `auth_contract_address` for its authorizations.
pub fn authorizations_query_command(config: &Config, auth_contract_address: &str) -> (command:
    String)
    ensures
        command@ == authorizations_query(*config, auth_contract_address@),
{
    let flags = build_query_flags(config);
    let mut command = config.neutron_binary.clone();
    command.append(" q wasm contract-state smart ");
    command.append(auth_contract_address);
    command.append(" '");
    command.append(
        "{\n            \"authorizations\": {\n                \"start_after\": null,\n                \"limit\": 100\n            }\n        }",
    );
    command.append("' ");
    command.append(flags.as_str());
    command
}

/// Where an instantiation stands when the node has answered.
#[derive(Debug, Clone, Copy, PartialEq, Eq, Structural)]
pub enum InstantiateStage {
    /// The transaction was broadcast; the answer names its hash.
    Broadcast,
    /// The transaction was looked up; the answer lists its events.
    Included,
}

/// What to do next in an instantiation.
#[derive(Debug, PartialEq, Eq)]
pub enum InstantiateStep {
    /// Run this command line, and come back with its answer at the stage `Included`.
    Query(String),
    /// The contract stands at this address.
    Done(String),
    /// The instantiation cannot be followed further.
    Failed(Error),
}

/// The step that follows an answer of the node.
pub open spec fn follows(
    step: InstantiateStep,
    config: Config,
    stage: InstantiateStage,
    response: JsonValue,
) -> bool {
    match stage {
        InstantiateStage::Broadcast => match tx_hash(response) {
            Ok(hash) => step matches InstantiateStep::Query(command) && command@ == tx_query(
                config,
                hash,
            ),
            Err(e) => step == InstantiateStep::Failed(e),
        },
        InstantiateStage::Included => match contract_address(response) {
            Ok(address) => step matches InstantiateStep::Done(found) && found@ == address,
            Err(e) => step == InstantiateStep::Failed(e),
        },
    }
}

/// Decides how an instantiation goes on after an answer of the node:
/// after the broadcast, with the query for the transaction; after that
/// query, with the address of the new contract.
pub fn instantiate_next(config: &Config, stage: InstantiateStage, response: &JsonValue) -> (step:
    InstantiateStep)
    ensures
        follows(step, *config, stage, *response),
{
    match stage {
        InstantiateStage::Broadcast => match extract_tx_hash(response) {
            Ok(hash) => InstantiateStep::Query(tx_query_command(config, hash.as_str())),
            Err(e) => InstantiateStep::Failed(e),
        },
        InstantiateStage::Included => match find_contract_address(response) {
            Ok(address) => InstantiateStep::Done(address),
            Err(e) => InstantiateStep::Failed(e),
        },
    }
}

} // verus!
