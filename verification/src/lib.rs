//! Planning and decoding logic for deploying and driving a guarded
//! liquidity program on a CosmWasm chain.
//!
//! - `address`: address strings and canonical bytes, and the address of a
//!   contract before it exists.
//! - `subroutine`: the steps that an authorization gates, and the two
//!   subroutines of a program.
//! - `authorization`: published authorizations as they come off the wire,
//!   their phases, and the messages that they let through.
//! - `program`: the authorizations, requests and accounts of a program.
//! - `library`: what the libraries of a program are instantiated with,
//!   and on which accounts they are approved.
//! - `wasm`, `node_cmd`: the command lines handed to the node binary, and
//!   what is read out of its answers.
//! - `cli`, `config`, `json`, `text`, `error`, `seq_lemmas`: the values and
//!   helpers that the others share.

pub mod address;
pub mod authorization;
pub mod cli;
pub mod config;
pub mod error;
pub mod json;
pub mod library;
pub mod node_cmd;
pub mod program;
pub mod seq_lemmas;
pub mod subroutine;
pub mod text;
pub mod wasm;
