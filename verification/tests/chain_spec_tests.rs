use parachain_node::chain_spec::devnet;
use parachain_node::chain_spec::mainnet;
use parachain_node::chain_spec::{
    dev_seeds_available, devnet_session_keys, DevKeys, get_multisig_sudo_key, mainnet_session_keys,
    ChainType, SessionKeys, AccountKey, CANDIDACY_BOND, ENDOWMENT, PARA_ID,
};
use parachain_node::currency::EXISTENTIAL_DEPOSIT;
use parachain_node::keys::{
    get_account_id_from_seed, get_collator_keys_from_seed, get_from_seed, sort_accounts,
    try_get_account_id_from_seed, try_get_collator_keys_from_seed, try_get_from_seed, AccountId,
    AuraId,
};

fn hex32(s: &str) -> [u8; 32] {
    let mut out = [0u8; 32];
    for i in 0..32 {
        out[i] = u8::from_str_radix(&s[2 * i..2 * i + 2], 16).unwrap();
    }
    out
}

const ALICE: &str = "d43593c715fdd31c61141abd04a99fd6822c8558854ccde39a5684e7a56da27d";
const BOB: &str = "8eaf04151687736326c9fea17e25fc5287613693c912909cb226aa4794f26a48";

#[test]
fn well_known_development_keys() {
    assert_eq!(get_from_seed("Alice").0, hex32(ALICE));
    assert_eq!(get_from_seed("Bob").0, hex32(BOB));
    assert_eq!(get_account_id_from_seed("Alice"), AccountId(hex32(ALICE)));
    assert_eq!(get_collator_keys_from_seed("Bob"), AuraId(hex32(BOB)));
    assert_ne!(get_from_seed("Alice//stash").0, get_from_seed("Alice").0);
}

#[test]
fn try_get_from_seed_reports_refused_seeds() {
    assert_eq!(try_get_from_seed("Alice").map(|k| k.0), Some(hex32(ALICE)));
    assert_eq!(try_get_from_seed(""), None);
    assert!(dev_seeds_available());
}

#[test]
fn session_keys_carry_the_aura_key() {
    let aura = AuraId(hex32(ALICE));
    assert_eq!(devnet_session_keys(aura), SessionKeys { aura });
    assert_eq!(mainnet_session_keys(aura), SessionKeys { aura });
}

fn acc(b: u8, last: u8) -> AccountId {
    let mut bytes = [b; 32];
    bytes[31] = last;
    AccountId(bytes)
}

#[test]
fn accounts_sort_by_bytes() {
    let sorted = sort_accounts(vec![acc(3, 0), acc(1, 9), acc(1, 2), acc(2, 0)]);
    assert_eq!(sorted, vec![acc(1, 2), acc(1, 9), acc(2, 0), acc(3, 0)]);
    assert_eq!(sort_accounts(vec![]), Vec::<AccountId>::new());
    assert_eq!(sort_accounts(vec![acc(5, 5), acc(5, 5)]), vec![acc(5, 5), acc(5, 5)]);
}

#[test]
fn multisig_sudo_key_ignores_listing_order() {
    let a = get_multisig_sudo_key(vec![acc(9, 0), acc(4, 0), acc(7, 0)], 2);
    let b = get_multisig_sudo_key(vec![acc(7, 0), acc(9, 0), acc(4, 0)], 2);
    assert_eq!(a.signatories, vec![acc(4, 0), acc(7, 0), acc(9, 0)]);
    assert_eq!(a.signatories, b.signatories);
    assert_eq!(a.threshold, 2);
}

fn dev_endowed() -> Vec<AccountId> {
    [
        "Alice", "Bob", "Charlie", "Dave", "Eve", "Ferdie", "Alice//stash", "Bob//stash",
        "Charlie//stash", "Dave//stash", "Eve//stash", "Ferdie//stash",
    ]
    .iter()
    .map(|s| get_account_id_from_seed(s))
    .collect()
}

#[test]
fn devnet_development_config() {
    let spec = devnet::development_config();
    assert_eq!(spec.name, "Development");
    assert_eq!(spec.id, "dev");
    assert_eq!(spec.chain_type, ChainType::Development);
    assert!(spec.boot_nodes.is_empty());
    assert!(spec.telemetry_endpoints.is_none());
    assert!(spec.fork_id.is_none());
    assert!(spec.protocol_id.is_none());
    let p = spec.properties.as_ref().unwrap();
    assert_eq!((p.token_symbol.as_str(), p.token_decimals, p.ss58_format), ("DEV", 12, 42));
    assert_eq!(spec.extensions.relay_chain, "rococo-local");
    assert_eq!(spec.extensions.para_id, 2000);
    let g = spec.genesis;
    let endowed = dev_endowed();
    assert_eq!(g.balances.len(), 12);
    for (i, (a, b)) in g.balances.iter().enumerate() {
        assert_eq!(*a, AccountKey::Account(endowed[i]));
        assert_eq!(*b, 1u128 << 60);
    }
    assert_eq!(g.council_members, endowed[..4].to_vec());
    let alice = AccountId(hex32(ALICE));
    let bob = AccountId(hex32(BOB));
    assert_eq!(g.invulnerables, vec![alice, bob]);
    assert_eq!(g.session_keys[0], (alice, alice, SessionKeys { aura: AuraId(hex32(ALICE)) }));
    assert_eq!(g.session_keys[1], (bob, bob, SessionKeys { aura: AuraId(hex32(BOB)) }));
    assert_eq!(g.candidacy_bond, 16 * EXISTENTIAL_DEPOSIT);
    assert_eq!(g.parachain_id, PARA_ID);
    match g.sudo_key {
        Some(AccountKey::Account(k)) => assert_eq!(k, alice),
        _ => panic!("the development sudo key is Alice's account"),
    }
    assert_eq!(g.assets.len(), 2);
    assert_eq!((g.assets[0].id, g.assets[0].owner, g.assets[0].is_sufficient), (1, alice, true));
    assert_eq!((g.assets[1].id, g.assets[1].owner, g.assets[1].min_balance), (2, bob, 100_000_000_000));
    assert_eq!(g.asset_metadata[0].name, "asset-1");
    assert_eq!(g.asset_metadata[0].symbol, "ALT1");
    assert_eq!(g.asset_metadata[1].name, "asset-2");
    assert_eq!(g.asset_metadata[1].symbol, "ALT2");
    assert_eq!(g.asset_metadata[1].decimals, 10);
    assert_eq!((g.asset_accounts[0].account, g.asset_accounts[0].balance), (alice, 500_000_000_000));
    assert_eq!((g.asset_accounts[1].id, g.asset_accounts[1].account), (2, bob));
    assert!(g.safe_xcm_version_current);
}

#[test]
fn devnet_local_testnet_config() {
    let spec = devnet::try_local_testnet_config().unwrap();
    assert_eq!(spec.name, "Development Local Testnet");
    assert_eq!(spec.id, "dev_local_testnet");
    assert_eq!(spec.chain_type, ChainType::Local);
    assert_eq!(spec.protocol_id.as_deref(), Some("devnet-local"));
    let p = spec.properties.unwrap();
    assert_eq!((p.token_symbol.as_str(), p.token_decimals, p.ss58_format), ("UNIT", 12, 42));
    assert_eq!(spec.genesis.balances.len(), 12);
}

#[test]
fn mainnet_configs_use_a_funded_multisig_sudo_key() {
    let dev = mainnet::try_development_config().unwrap();
    assert_eq!(dev.name, "Mainnet Development");
    assert_eq!(dev.id, "main_dev");
    let p = dev.properties.as_ref().unwrap();
    assert_eq!((p.token_symbol.as_str(), p.token_decimals, p.ss58_format), ("UNIT", 12, 42));
    let local = mainnet::local_testnet_config();
    assert_eq!(local.name, "Mainnet Local Testnet");
    assert_eq!(local.id, "main_local_testnet");
    assert_eq!(local.protocol_id.as_deref(), Some("mainnet-local"));
    let g = dev.genesis;
    assert_eq!(g.balances.len(), 13);
    assert_eq!(g.balances[0], (AccountKey::Account(get_account_id_from_seed("Alice")), ENDOWMENT));
    assert_eq!(Some(&g.balances[12].0), g.sudo_key.as_ref());
    assert_eq!(g.balances[12].1, ENDOWMENT);
    let charlie = get_account_id_from_seed("Charlie");
    let dave = get_account_id_from_seed("Dave");
    let eve = get_account_id_from_seed("Eve");
    match g.sudo_key {
        Some(AccountKey::Multisig(m)) => {
            assert_eq!(m.threshold, 2);
            let mut expected = vec![charlie, dave, eve];
            expected.sort_by_key(|a| a.0);
            assert_eq!(m.signatories, expected);
        }
        _ => panic!("the mainnet sudo key is a multisig"),
    }
    assert_eq!(g.candidacy_bond, CANDIDACY_BOND);
    assert_eq!(g.council_members.len(), 4);
}

#[test]
fn genesis_with_few_endowed_accounts() {
    let alice = get_account_id_from_seed("Alice");
    let g = devnet::testnet_genesis(vec![], vec![alice], None, 7);
    assert_eq!(g.council_members, vec![alice]);
    assert_eq!(g.balances, vec![(AccountKey::Account(alice), ENDOWMENT)]);
    assert!(g.invulnerables.is_empty());
    assert!(g.sudo_key.is_none());
    assert_eq!(g.parachain_id, 7);
    let m = mainnet::mainnet_genesis(vec![], vec![], AccountKey::Account(alice), 9);
    assert_eq!(m.balances, vec![(AccountKey::Account(alice), ENDOWMENT)]);
    assert_eq!(m.sudo_key, Some(AccountKey::Account(alice)));
}

#[test]
fn chain_specs_from_given_keys() {
    let k = DevKeys {
        alice: acc(1, 0),
        bob: acc(2, 0),
        charlie: acc(9, 0),
        dave: acc(4, 0),
        eve: acc(6, 0),
        ferdie: acc(5, 0),
        alice_stash: acc(11, 0),
        bob_stash: acc(12, 0),
        charlie_stash: acc(13, 0),
        dave_stash: acc(14, 0),
        eve_stash: acc(15, 0),
        ferdie_stash: acc(16, 0),
        alice_aura: AuraId([21; 32]),
        bob_aura: AuraId([22; 32]),
    };
    let dev = devnet::development_config_with(&k);
    assert_eq!(dev.genesis.council_members, vec![acc(1, 0), acc(2, 0), acc(9, 0), acc(4, 0)]);
    assert_eq!(dev.genesis.session_keys[1], (acc(2, 0), acc(2, 0), SessionKeys { aura: AuraId([22; 32]) }));
    let local = devnet::local_testnet_config_with(&k);
    assert_eq!(local.properties.map(|p| p.token_symbol), Some("UNIT".to_string()));
    let main = mainnet::development_config_with(&k);
    match main.genesis.sudo_key {
        Some(AccountKey::Multisig(m)) => assert_eq!(m.signatories, vec![acc(4, 0), acc(6, 0), acc(9, 0)]),
        _ => panic!("the mainnet sudo key is a multisig"),
    }
    let main_local = mainnet::local_testnet_config_with(&k);
    assert_eq!(main_local.genesis.balances.len(), 13);
    assert_eq!(main_local.genesis.assets[1].owner, acc(2, 0));
}

#[test]
fn try_variants_of_seed_keys_and_genesis() {
    assert_eq!(try_get_account_id_from_seed("Bob"), Some(AccountId(hex32(BOB))));
    assert_eq!(try_get_collator_keys_from_seed("Alice"), Some(AuraId(hex32(ALICE))));
    assert_eq!(try_get_account_id_from_seed(""), None);
    assert_eq!(try_get_collator_keys_from_seed(""), None);
    let alice = AccountId(hex32(ALICE));
    let g = devnet::try_testnet_genesis(vec![], vec![alice], Some(alice), 3).unwrap();
    assert_eq!(g.sudo_key, Some(AccountKey::Account(alice)));
    assert_eq!(g.balances.len(), 1);
    let m = mainnet::try_mainnet_genesis(vec![], vec![alice], AccountKey::Account(alice), 3).unwrap();
    assert_eq!(m.balances.len(), 2);
    assert_eq!(m.balances[1], (AccountKey::Account(alice), ENDOWMENT));
}
