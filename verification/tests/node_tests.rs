use parachain_node::cli::{EthApi, EvmTracingConfig as CliTracingConfig};
use parachain_node::rpc::{
    frontier_db_path, rpc_modules, rpc_plan, EvmTracingConfig, RpcModuleKind, RpcRequesters, EXECUTE_GAS_LIMIT_MULTIPLIER,
    MAX_STORED_FILTERS,
};
use parachain_node::service::{
    collator_key_available, node_start, relay_chain_source, rpc_tracing_config, telemetry_enabled,
    tracing_tasks_needed, NodeStart, RelayChainSource, FEE_HISTORY_LIMIT,
};


fn tracing(debug: bool, trace: bool) -> EvmTracingConfig {
    EvmTracingConfig {
        tracing_requesters: RpcRequesters { debug, trace },
        trace_filter_max_count: 500,
    }
}

#[test]
fn core_modules_only_without_evm_rpc() {
    let m = rpc_modules(false, true, &vec![EthApi::Txpool], &tracing(true, true));
    assert_eq!(m, vec![RpcModuleKind::System, RpcModuleKind::TransactionPayment, RpcModuleKind::Dev]);
}

#[test]
fn full_evm_module_set() {
    let m = rpc_modules(true, true, &vec![EthApi::Debug, EthApi::Txpool], &tracing(true, true));
    assert_eq!(
        m,
        vec![RpcModuleKind::System, RpcModuleKind::TransactionPayment, RpcModuleKind::Dev, RpcModuleKind::Eth, RpcModuleKind::EthFilter, RpcModuleKind::EthPubSub, RpcModuleKind::Net, RpcModuleKind::Web3, RpcModuleKind::TxPool, RpcModuleKind::Trace, RpcModuleKind::Debug]
    );
}

#[test]
fn optional_evm_modules_follow_their_conditions() {
    let m = rpc_modules(true, false, &vec![EthApi::Trace], &tracing(false, true));
    assert_eq!(m, vec![RpcModuleKind::System, RpcModuleKind::TransactionPayment, RpcModuleKind::Dev, RpcModuleKind::Eth, RpcModuleKind::EthPubSub, RpcModuleKind::Net, RpcModuleKind::Web3, RpcModuleKind::Trace]);
    let m = rpc_modules(true, true, &vec![], &tracing(true, false));
    assert_eq!(m, vec![RpcModuleKind::System, RpcModuleKind::TransactionPayment, RpcModuleKind::Dev, RpcModuleKind::Eth, RpcModuleKind::EthFilter, RpcModuleKind::EthPubSub, RpcModuleKind::Net, RpcModuleKind::Web3, RpcModuleKind::Debug]);
}

#[test]
fn tracing_tasks_for_debug_or_trace() {
    assert!(tracing_tasks_needed(&vec![EthApi::Debug]));
    assert!(tracing_tasks_needed(&vec![EthApi::Txpool, EthApi::Trace]));
    assert!(!tracing_tasks_needed(&vec![EthApi::Txpool]));
    assert!(!tracing_tasks_needed(&vec![]));
}

#[test]
fn relay_chain_and_start_decisions() {
    assert_eq!(relay_chain_source(true), RelayChainSource::Rpc);
    assert_eq!(relay_chain_source(false), RelayChainSource::InProcess);
    assert_eq!(node_start(true, true), NodeStart::Collator);
    assert_eq!(node_start(false, false), NodeStart::FullNode);
    assert_eq!(node_start(false, true), NodeStart::FullNode);
}

#[test]
fn telemetry_needs_endpoints() {
    assert!(telemetry_enabled(Some(2)));
    assert!(!telemetry_enabled(Some(0)));
    assert!(!telemetry_enabled(None));
}

fn cli_config(ethapi: Vec<EthApi>, max_past_logs: u32) -> CliTracingConfig {
    CliTracingConfig {
        ethapi,
        ethapi_max_permits: 10,
        ethapi_trace_max_count: 777,
        ethapi_trace_cache_duration: 300,
        eth_log_block_cache: 300_000_000,
        eth_statuses_cache: 300_000_000,
        max_past_logs,
        tracing_raw_max_memory_usage: 20_000_000,
    }
}

#[test]
fn rpc_tracing_config_from_command_line() {
    let spawned = RpcRequesters { debug: true, trace: false };
    let with = rpc_tracing_config(&cli_config(vec![EthApi::Debug], 10_000), spawned);
    assert_eq!(with.tracing_requesters, spawned);
    assert_eq!(with.trace_filter_max_count, 777);
    let without = rpc_tracing_config(&cli_config(vec![EthApi::Txpool], 10_000), spawned);
    assert_eq!(without.tracing_requesters, RpcRequesters { debug: false, trace: false });
    assert_eq!(without.trace_filter_max_count, 777);
}

#[test]
fn rpc_plan_takes_log_cap_from_command_line() {
    let cli = cli_config(vec![EthApi::Txpool], 1234);
    let plan = rpc_plan(true, true, &cli, &tracing(false, true));
    assert_eq!(plan.max_past_logs, 1234);
    assert_eq!(plan.max_stored_filters, MAX_STORED_FILTERS);
    assert_eq!(plan.max_stored_filters, 500);
    assert_eq!(plan.fee_history_cache_limit, FEE_HISTORY_LIMIT);
    assert_eq!(plan.execute_gas_limit_multiplier, EXECUTE_GAS_LIMIT_MULTIPLIER);
    assert_eq!(plan.trace_filter_max_count, 500);
    assert_eq!(
        plan.modules,
        vec![
            RpcModuleKind::System,
            RpcModuleKind::TransactionPayment,
            RpcModuleKind::Dev,
            RpcModuleKind::Eth,
            RpcModuleKind::EthFilter,
            RpcModuleKind::EthPubSub,
            RpcModuleKind::Net,
            RpcModuleKind::Web3,
            RpcModuleKind::TxPool,
            RpcModuleKind::Trace,
        ]
    );
}

#[test]
fn rpc_relay_chain_gives_no_collator_key() {
    assert!(!collator_key_available(RelayChainSource::Rpc, true));
    assert!(!collator_key_available(RelayChainSource::Rpc, false));
    assert!(collator_key_available(RelayChainSource::InProcess, true));
    assert!(!collator_key_available(RelayChainSource::InProcess, false));
}

#[test]
fn frontier_db_lives_in_the_config_dir() {
    let dir: Vec<String> = vec!["base".into(), "chains".into(), "dev".into()];
    let expected: Vec<String> =
        vec!["base".into(), "chains".into(), "dev".into(), "frontier".into(), "db".into()];
    assert_eq!(frontier_db_path(&dir), expected);
    assert_eq!(frontier_db_path(&vec![]), vec!["frontier".to_string(), "db".to_string()]);
}
