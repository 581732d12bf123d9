//! Decisions the node takes while it starts: where its relay chain comes
//! from, whether tracing tasks run, whether telemetry runs, and whether it
//! starts as a collator or as a full node.

use vstd::prelude::*;
use crate::cli::{EthApi, EvmTracingConfig};
use crate::rpc::{contains_eth_api, EvmTracingConfig as RpcTracingConfig, RpcRequesters};

verus! {

/// Each filter may stay in the filter pool for this many blocks.
pub const FILTER_RETAIN_THRESHOLD: u64 = 100;

/// Blocks of fee history the node keeps.
pub const FEE_HISTORY_LIMIT: u64 = 2048;

/// Duration of a relay-chain slot, in seconds.
pub const RELAY_CHAIN_SLOT_DURATION_SECS: u64 = 6;

/// Buffer size of the telemetry worker.
pub const TELEMETRY_BUFFER_SIZE: usize = 16;

/// Where the node takes its relay chain from.
#[derive(Debug, Clone, Copy, PartialEq, Eq, Structural)]
pub enum RelayChainSource {
    /// A relay-chain node reached over RPC; no collator key comes with it.
    Rpc,
    /// A relay-chain node run inside this process.
    InProcess,
}

/// How the node runs once its services are up.
#[derive(Debug, Clone, Copy, PartialEq, Eq, Structural)]
pub enum NodeStart {
    /// It authors blocks with its collator key.
    Collator,
    /// It follows the chain.
    FullNode,
}

/// The relay chain is reached over RPC exactly where an RPC URL was given.
pub fn relay_chain_source(has_relay_chain_rpc_url: bool) -> (r: RelayChainSource)
    ensures
        r == (if has_relay_chain_rpc_url {
            RelayChainSource::Rpc
        } else {
            RelayChainSource::InProcess
        }),
{
    if has_relay_chain_rpc_url {
        RelayChainSource::Rpc
    } else {
        RelayChainSource::InProcess
    }
}

/// The debug and trace request handlers need their tracing tasks exactly
/// where the command line asks for the debug or the trace API.
pub fn tracing_tasks_needed(ethapi: &Vec<EthApi>) -> (r: bool)
    ensures
        r == (ethapi@.contains(EthApi::Debug) || ethapi@.contains(EthApi::Trace)),
{
    contains_eth_api(ethapi, EthApi::Debug) || contains_eth_api(ethapi, EthApi::Trace)
}

/// Telemetry runs where telemetry endpoints are configured and there is at
/// least one of them; `endpoints` is their number, where configured.
pub fn telemetry_enabled(endpoints: Option<usize>) -> (r: bool)
    ensures
        r == (endpoints matches Some(n) && n > 0),
{
    match endpoints {
        Some(n) => n > 0,
        None => false,
    }
}

/// Whether the node holds a collator key once its relay chain is up: a
/// relay chain reached over RPC never hands one over; one run in this
/// process hands over the key it built, if any (`in_process_key`).
pub fn collator_key_available(source: RelayChainSource, in_process_key: bool) -> (r: bool)
    ensures
        source == RelayChainSource::Rpc ==> !r,
        source == RelayChainSource::InProcess ==> r == in_process_key,
{
    match source {
        RelayChainSource::Rpc => false,
        RelayChainSource::InProcess => in_process_key,
    }
}

/// The tracing configuration handed to the RPC layer. Where the command
/// line asks for the debug or the trace API, the tracing tasks are spawned
/// and their request handlers (`spawned`) are used; otherwise there is none.
/// The trace cap is the command line's `ethapi_trace_max_count`.
pub fn rpc_tracing_config(cli_config: &EvmTracingConfig, spawned: RpcRequesters) -> (r:
    RpcTracingConfig)
    ensures
        r.trace_filter_max_count == cli_config.ethapi_trace_max_count,
        r.tracing_requesters == if cli_config.ethapi@.contains(EthApi::Debug)
            || cli_config.ethapi@.contains(EthApi::Trace) {
            spawned
        } else {
            RpcRequesters { debug: false, trace: false }
        },
{
    let tracing_requesters = if tracing_tasks_needed(&cli_config.ethapi) {
        spawned
    } else {
        RpcRequesters { debug: false, trace: false }
    };
    RpcTracingConfig {
        tracing_requesters,
        trace_filter_max_count: cli_config.ethapi_trace_max_count,
    }
}

/// An authority starts as a collator, any other node as a full node. A
/// collator needs the collator key of its relay chain.
pub fn node_start(is_authority: bool, has_collator_key: bool) -> (r: NodeStart)
    requires
        is_authority ==> has_collator_key,
    ensures
        r == (if is_authority {
            NodeStart::Collator
        } else {
            NodeStart::FullNode
        }),
{
    if is_authority {
        NodeStart::Collator
    } else {
        NodeStart::FullNode
    }
}

} // verus!
