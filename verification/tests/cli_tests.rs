use parachain_node::chain_spec::Extensions;
use parachain_node::cli::{copy_path, relay_chain_base_path, relay_chain_id, EthApi};
use std::str::FromStr;

#[test]
fn parses_each_eth_api_flag() {
    assert_eq!(EthApi::from_str("debug"), Ok(EthApi::Debug));
    assert_eq!(EthApi::from_str("trace"), Ok(EthApi::Trace));
    assert_eq!(EthApi::from_str("txpool"), Ok(EthApi::Txpool));
}

#[test]
fn refuses_unknown_eth_api_flag() {
    assert_eq!(
        EthApi::from_str("foo"),
        Err("`foo` is not recognized as a supported Ethereum Api".to_string())
    );
    assert_eq!(
        EthApi::from_str("Debug"),
        Err("`Debug` is not recognized as a supported Ethereum Api".to_string())
    );
    assert_eq!(
        EthApi::from_str(""),
        Err("`` is not recognized as a supported Ethereum Api".to_string())
    );
    assert!(EthApi::from_str("debug ").is_err());
}

#[test]
fn relay_chain_id_comes_from_extensions() {
    let ext = Extensions { relay_chain: "rococo-local".to_string(), para_id: 2000 };
    assert_eq!(relay_chain_id(Some(&ext)), Some("rococo-local".to_string()));
    assert_eq!(relay_chain_id(None), None);
}

fn path(parts: &[&str]) -> Vec<String> {
    parts.iter().map(|p| p.to_string()).collect()
}

#[test]
fn relay_chain_base_path_is_polkadot_inside_the_base_path() {
    let base = path(&["/", "var", "lib", "node"]);
    assert_eq!(relay_chain_base_path(Some(&base)), Some(path(&["/", "var", "lib", "node", "polkadot"])));
    assert_eq!(relay_chain_base_path(Some(&vec![])), Some(path(&["polkadot"])));
    assert_eq!(relay_chain_base_path(None), None);
}

#[test]
fn copy_path_keeps_every_component() {
    let p = path(&["a", "b", "c"]);
    assert_eq!(copy_path(&p), p);
    assert_eq!(copy_path(&vec![]), Vec::<String>::new());
}
