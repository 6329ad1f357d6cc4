//! Client-side orchestration for publishing a compiled WASM template to a
//! Tari Ootle network through a wallet daemon's JSON-RPC endpoint.
//!
//! The deployment pipeline — validating the module binary, estimating the
//! publication fee, guarding the paying account's balance, submitting the
//! publish transaction and extracting the new template address from the
//! finalized result — lives here as verified code. Network transport and
//! file reading are left to the embedding program, which drives the
//! [`deployer::Deployment`] state machine: the machine hands out the next
//! wallet request to issue, the program performs it and feeds the response
//! back.

pub mod account;
pub mod balance;
pub mod cli;
pub mod cli_config;
pub mod deployer;
pub mod error;
pub mod git;
pub mod loader;
pub mod network;
pub mod outcome;
pub mod project;
pub mod request;
pub mod session;
pub mod templates;
pub mod uploader;
pub mod util;
pub mod workspace;
