//! Values of the node's command line that carry logic: the EVM tracing API
//! flags and the EVM tracing configuration handed to the service.

use vstd::prelude::*;
use crate::chain_spec::Extensions;

verus! {

/// EVM tracing CLI flags.
#[derive(Debug, PartialEq, Eq, Structural, Clone, Copy)]
pub enum EthApi {
    /// Enable EVM debug RPC methods.
    Debug,
    /// Enable EVM trace RPC methods.
    Trace,
    /// Enable EVM txpool RPC methods.
    Txpool,
}

/// The flag that the command line names `name`, if any.
pub open spec fn spec_eth_api_named(name: Seq<char>) -> Option<EthApi> {
    if name == "debug"@ {
        Some(EthApi::Debug)
    } else if name == "trace"@ {
        Some(EthApi::Trace)
    } else if name == "txpool"@ {
        Some(EthApi::Txpool)
    } else {
        None
    }
}

/// The message with which an unknown flag `name` is refused.
pub open spec fn spec_unrecognized_message(name: Seq<char>) -> Seq<char> {
    "`"@ + name + "` is not recognized as a supported Ethereum Api"@
}

impl std::str::FromStr for EthApi {
    type Err = String;

    /// Parses one flag: `debug`, `trace` or `txpool`; any other text is
    /// refused with a message that quotes it.
    fn from_str(s: &str) -> (r: Result<Self, Self::Err>)
        ensures
            match spec_eth_api_named(s@) {
                Some(api) => r == Ok::<EthApi, String>(api),
                None => r matches Err(msg) && msg@ == spec_unrecognized_message(s@),
            },
    {
        let given = s.to_owned();
        if given == "debug".to_owned() {
            Ok(EthApi::Debug)
        } else if given == "trace".to_owned() {
            Ok(EthApi::Trace)
        } else if given == "txpool".to_owned() {
            Ok(EthApi::Txpool)
        } else {
            let mut msg = "`".to_owned();
            msg.append(s);
            msg.append("` is not recognized as a supported Ethereum Api");
            Err(msg)
        }
    }
}

/// EVM tracing CLI config.
pub struct EvmTracingConfig {
    /// Enabled EVM tracing flags.
    pub ethapi: Vec<EthApi>,
    /// Number of concurrent tracing tasks.
    pub ethapi_max_permits: u32,
    /// Maximum number of trace entries a single request of `trace_filter` is allowed to return.
    /// A request asking for more or an unbounded one going over this limit will both return an
    /// error.
    pub ethapi_trace_max_count: u32,
    /// Duration (in seconds) after which the cache of `trace_filter` for a given block will be
    /// discarded.
    pub ethapi_trace_cache_duration: u64,
    /// Size in bytes of the LRU cache for block data.
    pub eth_log_block_cache: usize,
    /// Size in bytes of the LRU cache for transactions statuses data.
    pub eth_statuses_cache: usize,
    /// Maximum number of logs in a query.
    pub max_past_logs: u32,
    /// Size in bytes of data a raw tracing request is allowed to use.
    /// Bound the size of memory, stack and storage data.
    pub tracing_raw_max_memory_usage: usize,
}


/// The command-line name of each flag.
pub open spec fn spec_eth_api_name(api: EthApi) -> Seq<char> {
    match api {
        EthApi::Debug => "debug"@,
        EthApi::Trace => "trace"@,
        EthApi::Txpool => "txpool"@,
    }
}

/// Each flag is parsed from its own name, and from no other text.
pub proof fn lemma_eth_api_names(api: EthApi, s: Seq<char>)
    ensures
        spec_eth_api_named(spec_eth_api_name(api)) == Some(api),
        spec_eth_api_named(s) == Some(api) <==> s == spec_eth_api_name(api),
{
    reveal_strlit("debug");
    reveal_strlit("trace");
    reveal_strlit("txpool");
    assert("debug"@ != "trace"@) by {
        assert("debug"@[0] != "trace"@[0]);
    }
    assert("debug"@ != "txpool"@) by {
        assert("debug"@[0] != "txpool"@[0]);
    }
    assert("trace"@ != "txpool"@) by {
        assert("trace"@[1] != "txpool"@[1]);
    }
}

/// The relay chain named by the parachain's chain-specification extensions,
/// where there are any; the relay-chain node runs on that chain.
pub fn relay_chain_id(extensions: Option<&Extensions>) -> (r: Option<String>)
    ensures
        match extensions {
            Some(e) => r matches Some(id) && id@ == e.relay_chain@,
            None => r is None,
        },
{
    match extensions {
        Some(e) => Some(e.relay_chain.clone()),
        None => None,
    }
}


/// A copy of the path `path`, given by its components.
pub fn copy_path(path: &Vec<String>) -> (r: Vec<String>)
    ensures
        r.deep_view() == path.deep_view(),
{
    let mut r: Vec<String> = Vec::new();
    let mut i: usize = 0;
    while i < path.len()
        invariant
            0 <= i <= path@.len(),
            r@.len() == i,
            forall|k: int| 0 <= k < i ==> #[trigger] r@[k]@ == path@[k]@,
        decreases path@.len() - i,
    {
        let c = path[i].clone();
        r.push(c);
        i = i + 1;
    }
    assert(r.deep_view() =~= path.deep_view());
    r
}

/// The base path of the relay-chain node: the directory `polkadot` inside
/// the parachain's base path, where the parachain has one. Paths are given
/// by their components.
pub fn relay_chain_base_path(para_base_path: Option<&Vec<String>>) -> (r: Option<Vec<String>>)
    ensures
        match para_base_path {
            Some(p) => r matches Some(q) && q.deep_view() == p.deep_view().push("polkadot"@),
            None => r is None,
        },
{
    match para_base_path {
        Some(p) => {
            let mut q = copy_path(p);
            q.push("polkadot".to_owned());
            assert(q.deep_view() =~= p.deep_view().push("polkadot"@));
            Some(q)
        },
        None => None,
    }
}

} // verus!
