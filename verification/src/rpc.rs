//! Which RPC modules the node serves, decided from its configuration.

use vstd::prelude::*;
use crate::cli::EthApi;
use crate::service::FEE_HISTORY_LIMIT;

verus! {

/// Most filters the filter API keeps at once.
pub const MAX_STORED_FILTERS: usize = 500;

/// The multiplier of the block gas limit allowed to `eth_call` execution.
pub const EXECUTE_GAS_LIMIT_MULTIPLIER: u64 = 10;

/// Which tracing request handlers the node runs.
#[derive(Debug, Clone, Copy, PartialEq, Eq, Structural)]
pub struct RpcRequesters {
    /// A handler for debug requests is running.
    pub debug: bool,
    /// A handler for trace requests is running.
    pub trace: bool,
}

/// EVM tracing configuration of the RPC layer.
#[derive(Debug, Clone, Copy, PartialEq, Eq, Structural)]
pub struct EvmTracingConfig {
    pub tracing_requesters: RpcRequesters,
    pub trace_filter_max_count: u32,
}

/// An RPC module the node merges into its RPC server.
#[derive(Debug, Clone, Copy, PartialEq, Eq, Structural)]
pub enum RpcModuleKind {
    System,
    TransactionPayment,
    Dev,
    Eth,
    EthFilter,
    EthPubSub,
    Net,
    Web3,
    TxPool,
    Trace,
    Debug,
}

/// `[m]` where `present`, else nothing.
pub open spec fn optional_module(present: bool, m: RpcModuleKind) -> Seq<RpcModuleKind> {
    if present {
        seq![m]
    } else {
        Seq::empty()
    }
}

/// The modules served by every node.
pub open spec fn spec_core_modules() -> Seq<RpcModuleKind> {
    seq![RpcModuleKind::System, RpcModuleKind::TransactionPayment, RpcModuleKind::Dev]
}

/// The modules of the node, in the order they are merged: the core modules;
/// then, with the EVM RPC enabled, `Eth`, `EthFilter` where there is a filter
/// pool, `EthPubSub`, `Net`, `Web3`, `TxPool` where it was asked for on the
/// command line, and `Trace` and `Debug` where their request handlers run.
pub open spec fn spec_rpc_modules(
    enable_evm_rpc: bool,
    has_filter_pool: bool,
    ethapi_cmd: Seq<EthApi>,
    requesters: RpcRequesters,
) -> Seq<RpcModuleKind> {
    if !enable_evm_rpc {
        spec_core_modules()
    } else {
        spec_core_modules() + seq![RpcModuleKind::Eth] + optional_module(
            has_filter_pool,
            RpcModuleKind::EthFilter,
        ) + seq![RpcModuleKind::EthPubSub, RpcModuleKind::Net, RpcModuleKind::Web3]
            + optional_module(ethapi_cmd.contains(EthApi::Txpool), RpcModuleKind::TxPool)
            + optional_module(requesters.trace, RpcModuleKind::Trace) + optional_module(
            requesters.debug,
            RpcModuleKind::Debug,
        )
    }
}

/// Whether `flags` holds `api`.
pub fn contains_eth_api(flags: &Vec<EthApi>, api: EthApi) -> (r: bool)
    ensures
        r == flags@.contains(api),
{
    let mut i: usize = 0;
    while i < flags.len()
        invariant
            0 <= i <= flags@.len(),
            forall|k: int| 0 <= k < i ==> flags@[k] != api,
        decreases flags@.len() - i,
    {
        if flags[i] == api {
            assert(flags@[i as int] == api);
            return true;
        }
        i = i + 1;
    }
    false
}

fn push_if(modules: &mut Vec<RpcModuleKind>, present: bool, m: RpcModuleKind)
    ensures
        final(modules)@ == old(modules)@ + optional_module(present, m),
{
    if present {
        modules.push(m);
    }
    assert(modules@ =~= old(modules)@ + optional_module(present, m));
}

/// Decides the RPC modules of the node (see `spec_rpc_modules`).
pub fn rpc_modules(
    enable_evm_rpc: bool,
    has_filter_pool: bool,
    ethapi_cmd: &Vec<EthApi>,
    tracing_config: &EvmTracingConfig,
) -> (r: Vec<RpcModuleKind>)
    ensures
        r@ == spec_rpc_modules(
            enable_evm_rpc,
            has_filter_pool,
            ethapi_cmd@,
            tracing_config.tracing_requesters,
        ),
        r@.no_duplicates(),
{
    proof {
        lemma_rpc_modules_distinct(
            enable_evm_rpc,
            has_filter_pool,
            ethapi_cmd@,
            tracing_config.tracing_requesters,
        );
    }
    let mut modules: Vec<RpcModuleKind> = Vec::new();
    modules.push(RpcModuleKind::System);
    modules.push(RpcModuleKind::TransactionPayment);
    modules.push(RpcModuleKind::Dev);
    assert(modules@ =~= spec_core_modules());
    if !enable_evm_rpc {
        return modules;
    }
    modules.push(RpcModuleKind::Eth);
    push_if(&mut modules, has_filter_pool, RpcModuleKind::EthFilter);
    modules.push(RpcModuleKind::EthPubSub);
    modules.push(RpcModuleKind::Net);
    modules.push(RpcModuleKind::Web3);
    push_if(&mut modules, contains_eth_api(ethapi_cmd, EthApi::Txpool), RpcModuleKind::TxPool);
    push_if(&mut modules, tracing_config.tracing_requesters.trace, RpcModuleKind::Trace);
    push_if(&mut modules, tracing_config.tracing_requesters.debug, RpcModuleKind::Debug);
    assert(modules@ =~= spec_rpc_modules(
        enable_evm_rpc,
        has_filter_pool,
        ethapi_cmd@,
        tracing_config.tracing_requesters,
    ));
    modules
}


/// Every node serves the system, transaction-payment and dev modules, and
/// merges them first.
pub proof fn lemma_core_modules_first(
    enable_evm_rpc: bool,
    has_filter_pool: bool,
    ethapi_cmd: Seq<EthApi>,
    requesters: RpcRequesters,
)
    ensures
        spec_rpc_modules(enable_evm_rpc, has_filter_pool, ethapi_cmd, requesters).len() >= 3,
        spec_rpc_modules(enable_evm_rpc, has_filter_pool, ethapi_cmd, requesters).take(3)
            == spec_core_modules(),
{
    let m = spec_rpc_modules(enable_evm_rpc, has_filter_pool, ethapi_cmd, requesters);
    assert(m.take(3) =~= spec_core_modules());
}

proof fn lemma_optional_contains(present: bool, m: RpcModuleKind, k: RpcModuleKind)
    ensures
        optional_module(present, m).contains(k) == (present && k == m),
{
    if present && k == m {
        assert(optional_module(present, m)[0] == k);
    }
}

proof fn lemma_single_contains(a: RpcModuleKind, k: RpcModuleKind)
    ensures
        seq![a].contains(k) == (k == a),
{
    if k == a {
        assert(seq![a][0] == k);
    }
}

proof fn lemma_triple_contains(a: RpcModuleKind, b: RpcModuleKind, c: RpcModuleKind, k: RpcModuleKind)
    ensures
        seq![a, b, c].contains(k) == (k == a || k == b || k == c),
{
    if k == a {
        assert(seq![a, b, c][0] == k);
    } else if k == b {
        assert(seq![a, b, c][1] == k);
    } else if k == c {
        assert(seq![a, b, c][2] == k);
    }
}

/// Each EVM module is served exactly where the EVM RPC is enabled and its
/// own condition holds: `Eth`, `EthPubSub`, `Net` and `Web3` always,
/// `EthFilter` with a filter pool, `TxPool` where the command line asks for
/// it, `Trace` and `Debug` where their request handlers run; the core
/// modules are always served.
pub proof fn lemma_rpc_module_presence(
    enable_evm_rpc: bool,
    has_filter_pool: bool,
    ethapi_cmd: Seq<EthApi>,
    requesters: RpcRequesters,
    k: RpcModuleKind,
)
    ensures
        spec_rpc_modules(enable_evm_rpc, has_filter_pool, ethapi_cmd, requesters).contains(k)
            == match k {
            RpcModuleKind::System | RpcModuleKind::TransactionPayment | RpcModuleKind::Dev => true,
            RpcModuleKind::Eth | RpcModuleKind::EthPubSub | RpcModuleKind::Net
            | RpcModuleKind::Web3 => enable_evm_rpc,
            RpcModuleKind::EthFilter => enable_evm_rpc && has_filter_pool,
            RpcModuleKind::TxPool => enable_evm_rpc && ethapi_cmd.contains(EthApi::Txpool),
            RpcModuleKind::Trace => enable_evm_rpc && requesters.trace,
            RpcModuleKind::Debug => enable_evm_rpc && requesters.debug,
        },
{
    broadcast use vstd::seq_lib::lemma_seq_concat_contains_all_elements;

    lemma_triple_contains(
        RpcModuleKind::System,
        RpcModuleKind::TransactionPayment,
        RpcModuleKind::Dev,
        k,
    );
    lemma_triple_contains(RpcModuleKind::EthPubSub, RpcModuleKind::Net, RpcModuleKind::Web3, k);
    lemma_single_contains(RpcModuleKind::Eth, k);
    lemma_optional_contains(has_filter_pool, RpcModuleKind::EthFilter, k);
    lemma_optional_contains(ethapi_cmd.contains(EthApi::Txpool), RpcModuleKind::TxPool, k);
    lemma_optional_contains(requesters.trace, RpcModuleKind::Trace, k);
    lemma_optional_contains(requesters.debug, RpcModuleKind::Debug, k);
}


proof fn lemma_push_fresh(s: Seq<RpcModuleKind>, m: RpcModuleKind)
    requires
        s.no_duplicates(),
        !s.contains(m),
    ensures
        s.push(m).no_duplicates(),
        forall|k: RpcModuleKind| #[trigger] s.push(m).contains(k) == (s.contains(k) || k == m),
{
    let t = s.push(m);
    assert forall|i: int, j: int| 0 <= i < t.len() && 0 <= j < t.len() && i != j implies t[i]
        != t[j] by {
        if i < s.len() && j < s.len() {
            assert(t[i] == s[i] && t[j] == s[j]);
        } else if i < s.len() {
            assert(t[i] == s[i]);
        } else {
            assert(t[j] == s[j]);
        }
    }
    assert forall|k: RpcModuleKind| #[trigger] t.contains(k) == (s.contains(k) || k == m) by {
        if t.contains(k) {
            let i = choose|i: int| 0 <= i < t.len() && t[i] == k;
            if i < s.len() {
                assert(s[i] == k);
            }
        }
        if s.contains(k) {
            let i = choose|i: int| 0 <= i < s.len() && s[i] == k;
            assert(t[i] == k);
        }
        if k == m {
            assert(t[s.len() as int] == k);
        }
    }
}

proof fn lemma_add_optional_fresh(s: Seq<RpcModuleKind>, present: bool, m: RpcModuleKind)
    requires
        s.no_duplicates(),
        !s.contains(m),
    ensures
        (s + optional_module(present, m)).no_duplicates(),
        (s + optional_module(present, m)).len() == s.len() + if present { 1int } else { 0int },
        forall|k: RpcModuleKind| #[trigger] (s + optional_module(present, m)).contains(k) == (
        s.contains(k) || (present && k == m)),
{
    if present {
        assert(s + optional_module(present, m) =~= s.push(m));
        lemma_push_fresh(s, m);
    } else {
        assert(s + optional_module(present, m) =~= s);
    }
}

/// One where `b` holds, else zero.
pub open spec fn one_if(b: bool) -> int {
    if b {
        1
    } else {
        0
    }
}

/// The node merges each RPC module at most once, so that no two modules
/// bring the same methods; it merges the three core modules and, with the
/// EVM RPC enabled, the four EVM modules served by every such node plus one
/// for each of the filter pool, the txpool flag and the trace and debug
/// request handlers.
pub proof fn lemma_rpc_modules_distinct(
    enable_evm_rpc: bool,
    has_filter_pool: bool,
    ethapi_cmd: Seq<EthApi>,
    requesters: RpcRequesters,
)
    ensures
        spec_rpc_modules(enable_evm_rpc, has_filter_pool, ethapi_cmd, requesters).no_duplicates(),
        !enable_evm_rpc ==> spec_rpc_modules(enable_evm_rpc, has_filter_pool, ethapi_cmd, requesters).len() == 3,
        enable_evm_rpc ==> spec_rpc_modules(enable_evm_rpc, has_filter_pool, ethapi_cmd, requesters).len() == 7
            + one_if(has_filter_pool) + one_if(ethapi_cmd.contains(EthApi::Txpool)) + one_if(requesters.trace)
            + one_if(requesters.debug),
{
    let e = Seq::<RpcModuleKind>::empty();
    assert(e.no_duplicates());
    lemma_push_fresh(e, RpcModuleKind::System);
    let c1 = e.push(RpcModuleKind::System);
    lemma_push_fresh(c1, RpcModuleKind::TransactionPayment);
    let c2 = c1.push(RpcModuleKind::TransactionPayment);
    lemma_push_fresh(c2, RpcModuleKind::Dev);
    let core = c2.push(RpcModuleKind::Dev);
    assert(core =~= spec_core_modules());
    assert(core.len() == 3);
    if enable_evm_rpc {
        lemma_push_fresh(core, RpcModuleKind::Eth);
        let s1 = core.push(RpcModuleKind::Eth);
        assert(spec_core_modules() + seq![RpcModuleKind::Eth] =~= s1);
        lemma_add_optional_fresh(s1, has_filter_pool, RpcModuleKind::EthFilter);
        let s2 = s1 + optional_module(has_filter_pool, RpcModuleKind::EthFilter);
        lemma_push_fresh(s2, RpcModuleKind::EthPubSub);
        let s3 = s2.push(RpcModuleKind::EthPubSub);
        lemma_push_fresh(s3, RpcModuleKind::Net);
        let s4 = s3.push(RpcModuleKind::Net);
        lemma_push_fresh(s4, RpcModuleKind::Web3);
        let s5 = s4.push(RpcModuleKind::Web3);
        assert(s5.len() == s2.len() + 3);
        assert(s2 + seq![RpcModuleKind::EthPubSub, RpcModuleKind::Net, RpcModuleKind::Web3] =~= s5);
        let txpool = ethapi_cmd.contains(EthApi::Txpool);
        lemma_add_optional_fresh(s5, txpool, RpcModuleKind::TxPool);
        let s6 = s5 + optional_module(txpool, RpcModuleKind::TxPool);
        lemma_add_optional_fresh(s6, requesters.trace, RpcModuleKind::Trace);
        let s7 = s6 + optional_module(requesters.trace, RpcModuleKind::Trace);
        lemma_add_optional_fresh(s7, requesters.debug, RpcModuleKind::Debug);
        assert(spec_rpc_modules(enable_evm_rpc, has_filter_pool, ethapi_cmd, requesters) =~= s7
            + optional_module(requesters.debug, RpcModuleKind::Debug));
    }
}


/// The RPC layer of the node: its modules, in merge order, and the limits
/// they are configured with.
pub struct RpcPlan {
    pub modules: Vec<RpcModuleKind>,
    /// Most logs a single log query may return.
    pub max_past_logs: u32,
    /// Most filters the filter API keeps at once.
    pub max_stored_filters: usize,
    /// Blocks of fee history kept for `eth_feeHistory`.
    pub fee_history_cache_limit: u64,
    /// The multiplier of the block gas limit allowed to `eth_call` execution.
    pub execute_gas_limit_multiplier: u64,
    /// Most trace entries one `trace_filter` request may return.
    pub trace_filter_max_count: u32,
}

/// Plans the RPC layer from the command line's EVM configuration and the
/// tracing configuration: the modules of `spec_rpc_modules`, the log cap of
/// the command line, the trace cap of the tracing configuration, and the
/// fixed filter, fee-history and gas limits.
pub fn rpc_plan(
    enable_evm_rpc: bool,
    has_filter_pool: bool,
    cli_config: &crate::cli::EvmTracingConfig,
    tracing_config: &EvmTracingConfig,
) -> (r: RpcPlan)
    ensures
        r.modules@ == spec_rpc_modules(
            enable_evm_rpc,
            has_filter_pool,
            cli_config.ethapi@,
            tracing_config.tracing_requesters,
        ),
        r.max_past_logs == cli_config.max_past_logs,
        r.max_stored_filters == MAX_STORED_FILTERS,
        r.fee_history_cache_limit == FEE_HISTORY_LIMIT,
        r.execute_gas_limit_multiplier == EXECUTE_GAS_LIMIT_MULTIPLIER,
        r.trace_filter_max_count == tracing_config.trace_filter_max_count,
{
    RpcPlan {
        modules: rpc_modules(enable_evm_rpc, has_filter_pool, &cli_config.ethapi, tracing_config),
        max_past_logs: cli_config.max_past_logs,
        max_stored_filters: MAX_STORED_FILTERS,
        fee_history_cache_limit: FEE_HISTORY_LIMIT,
        execute_gas_limit_multiplier: EXECUTE_GAS_LIMIT_MULTIPLIER,
        trace_filter_max_count: tracing_config.trace_filter_max_count,
    }
}


/// The directory of the Frontier database: `frontier/db` inside the chain's
/// configuration directory. Paths are given by their components.
pub fn frontier_db_path(config_dir: &Vec<String>) -> (r: Vec<String>)
    ensures
        r.deep_view() == config_dir.deep_view() + seq!["frontier"@, "db"@],
{
    let mut r = crate::cli::copy_path(config_dir);
    r.push("frontier".to_owned());
    r.push("db".to_owned());
    assert(r.deep_view() =~= config_dir.deep_view() + seq!["frontier"@, "db"@]);
    r
}

} // verus!
