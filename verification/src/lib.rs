//! Verified core of a Substrate parachain node: currency arithmetic, CLI
//! value parsing, chain-specification and genesis planning, RPC and service
//! decisions.

pub mod currency;
pub mod common;
pub mod cli;

pub mod keys;
pub mod chain_spec;
pub mod rpc;
pub mod service;
