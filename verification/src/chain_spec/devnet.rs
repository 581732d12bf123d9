//! Chain specifications of the development runtime.

use vstd::prelude::*;
use crate::chain_spec::{
    ChainSpecPlan, ChainSpecView, ChainType, DevKeys, SessionKeys, GenesisPlan, GenesisView, AccountKey,
    AccountKeyView, PARA_ID, chain_spec_plan, dev_endowed, dev_invulnerables, dev_keys,
    dev_seeds_available, dev_seeds_derivable, genesis_plan, spec_chain_spec, spec_dev_endowed,
    spec_dev_invulnerables, spec_dev_keys, spec_genesis, spec_token_properties, spec_unit_properties,
};
use crate::keys::{
    AccountId, AuraId, get_account_id_from_seed, seed_derivable, spec_account_from_seed,
    try_get_from_seed,
};

verus! {

/// The development runtime's genesis: the given collators, endowed accounts,
/// optional sudo key (not endowed) and parachain id; Alice and Bob own the
/// genesis assets.
pub fn testnet_genesis(
    invulnerables: Vec<(AccountId, AuraId)>,
    endowed_accounts: Vec<AccountId>,
    root_key: Option<AccountId>,
    id: u32,
) -> (r: GenesisPlan)
    requires
        seed_derivable("Alice"@),
        seed_derivable("Bob"@),
    ensures
        r@ == spec_genesis(
            invulnerables@,
            endowed_accounts@,
            match root_key {
                Some(k) => Some(AccountKeyView::Account(k)),
                None => None,
            },
            false,
            id,
            spec_account_from_seed("Alice"@),
            spec_account_from_seed("Bob"@),
        ),
{
    let alice = get_account_id_from_seed("Alice");
    let bob = get_account_id_from_seed("Bob");
    let sudo_key = match root_key {
        Some(k) => Some(AccountKey::Account(k)),
        None => None,
    };
    genesis_plan(invulnerables, endowed_accounts, sudo_key, false, id, alice, bob)
}

/// `testnet_genesis`, or `None` where Alice's or Bob's seed yields no key.
pub fn try_testnet_genesis(
    invulnerables: Vec<(AccountId, AuraId)>,
    endowed_accounts: Vec<AccountId>,
    root_key: Option<AccountId>,
    id: u32,
) -> (r: Option<GenesisPlan>)
    ensures
        r is Some <==> (seed_derivable("Alice"@) && seed_derivable("Bob"@)),
        r matches Some(g) ==> g@ == spec_genesis(
            invulnerables@,
            endowed_accounts@,
            match root_key {
                Some(k) => Some(AccountKeyView::Account(k)),
                None => None,
            },
            false,
            id,
            spec_account_from_seed("Alice"@),
            spec_account_from_seed("Bob"@),
        ),
{
    if try_get_from_seed("Alice").is_some() && try_get_from_seed("Bob").is_some() {
        Some(testnet_genesis(invulnerables, endowed_accounts, root_key, id))
    } else {
        None
    }
}

/// The genesis of both development-runtime chains: Alice and Bob collate,
/// the development accounts are endowed, Alice holds the sudo key.
pub open spec fn spec_devnet_genesis(k: DevKeys) -> GenesisView {
    spec_genesis(
        spec_dev_invulnerables(k),
        spec_dev_endowed(k),
        Some(AccountKeyView::Account(k.alice)),
        false,
        PARA_ID,
        k.alice,
        k.bob,
    )
}

pub open spec fn spec_development_config(k: DevKeys) -> ChainSpecView {
    spec_chain_spec(
        "Development"@,
        "dev"@,
        ChainType::Development,
        None,
        Some(spec_token_properties("DEV"@)),
        spec_devnet_genesis(k),
    )
}

pub open spec fn spec_local_testnet_config(k: DevKeys) -> ChainSpecView {
    spec_chain_spec(
        "Development Local Testnet"@,
        "dev_local_testnet"@,
        ChainType::Local,
        Some("devnet-local"@),
        Some(spec_unit_properties()),
        spec_devnet_genesis(k),
    )
}

fn devnet_genesis(keys: &DevKeys) -> (r: GenesisPlan)
    ensures
        r@ == spec_devnet_genesis(*keys),
{
    genesis_plan(
        dev_invulnerables(keys),
        dev_endowed(keys),
        Some(AccountKey::Account(keys.alice)),
        false,
        PARA_ID,
        keys.alice,
        keys.bob,
    )
}

/// The development chain of the development runtime, from the development
/// keys.
pub fn development_config_with(keys: &DevKeys) -> (r: ChainSpecPlan)
    ensures
        r@ == spec_development_config(*keys),
        r.chain_type == ChainType::Development,
{
    chain_spec_plan("Development", "dev", ChainType::Development, None, "DEV", devnet_genesis(keys))
}

/// The local testnet of the development runtime, from the development keys.
pub fn local_testnet_config_with(keys: &DevKeys) -> (r: ChainSpecPlan)
    ensures
        r@ == spec_local_testnet_config(*keys),
        r.chain_type == ChainType::Local,
{
    chain_spec_plan(
        "Development Local Testnet",
        "dev_local_testnet",
        ChainType::Local,
        Some("devnet-local"),
        "UNIT",
        devnet_genesis(keys),
    )
}

/// The development chain of the development runtime.
pub fn development_config() -> (r: ChainSpecPlan)
    requires
        dev_seeds_derivable(),
    ensures
        r@ == spec_development_config(spec_dev_keys()),
        r.chain_type == ChainType::Development,
{
    let keys = dev_keys();
    let genesis = testnet_genesis(
        dev_invulnerables(&keys),
        dev_endowed(&keys),
        Some(keys.alice),
        PARA_ID,
    );
    chain_spec_plan("Development", "dev", ChainType::Development, None, "DEV", genesis)
}

/// The local testnet of the development runtime.
pub fn local_testnet_config() -> (r: ChainSpecPlan)
    requires
        dev_seeds_derivable(),
    ensures
        r@ == spec_local_testnet_config(spec_dev_keys()),
        r.chain_type == ChainType::Local,
{
    let keys = dev_keys();
    let genesis = testnet_genesis(
        dev_invulnerables(&keys),
        dev_endowed(&keys),
        Some(keys.alice),
        PARA_ID,
    );
    chain_spec_plan(
        "Development Local Testnet",
        "dev_local_testnet",
        ChainType::Local,
        Some("devnet-local"),
        "UNIT",
        genesis,
    )
}

/// `development_config`, or `None` where a development seed yields no key.
pub fn try_development_config() -> (r: Option<ChainSpecPlan>)
    ensures
        r is Some <==> dev_seeds_derivable(),
        r matches Some(p) ==> p@ == spec_development_config(spec_dev_keys()),
{
    if dev_seeds_available() {
        Some(development_config())
    } else {
        None
    }
}

/// `local_testnet_config`, or `None` where a development seed yields no key.
pub fn try_local_testnet_config() -> (r: Option<ChainSpecPlan>)
    ensures
        r is Some <==> dev_seeds_derivable(),
        r matches Some(p) ==> p@ == spec_local_testnet_config(spec_dev_keys()),
{
    if dev_seeds_available() {
        Some(local_testnet_config())
    } else {
        None
    }
}

/// Both development-runtime chains announce in their extensions the
/// parachain id that their genesis sets, share one genesis, and their sudo
/// key (Alice's account) is not endowed beyond the endowed accounts.
pub proof fn lemma_devnet_chain_specs_consistent(k: DevKeys)
    ensures
        spec_development_config(k).extensions.para_id == spec_development_config(k).genesis.parachain_id,
        spec_local_testnet_config(k).extensions.para_id
            == spec_local_testnet_config(k).genesis.parachain_id,
        spec_development_config(k).genesis.balances.len() == 12,
        spec_development_config(k).genesis.sudo_key == Some(AccountKeyView::Account(k.alice)),
        spec_development_config(k).genesis == spec_local_testnet_config(k).genesis,
{
}

/// The development chain is a chain of type `Development` named
/// "Development" with id "dev" and no protocol id; the local testnet is
/// a chain of type `Local` named "Development Local Testnet" with id "dev_local_testnet"
/// and protocol id "devnet-local". Both announce 12 token decimals and SS58
/// format 42.
pub proof fn lemma_devnet_chain_metadata(k: DevKeys)
    ensures
        spec_development_config(k).chain_type == ChainType::Development,
        spec_development_config(k).name == "Development"@,
        spec_development_config(k).id == "dev"@,
        spec_development_config(k).protocol_id is None,
        spec_development_config(k).properties matches Some(p) && p.token_symbol == "DEV"@
            && p.token_decimals == 12 && p.ss58_format == 42,
        spec_local_testnet_config(k).chain_type == ChainType::Local,
        spec_local_testnet_config(k).name == "Development Local Testnet"@,
        spec_local_testnet_config(k).id == "dev_local_testnet"@,
        spec_local_testnet_config(k).protocol_id == Some("devnet-local"@),
        spec_local_testnet_config(k).properties matches Some(p) && p.token_symbol == "UNIT"@
            && p.token_decimals == 12 && p.ss58_format == 42,
{
}

/// Both chains start with exactly two invulnerable collators, Alice and
/// Bob, in that order, each registered for sessions with its own account as
/// validator id and its own Aura key.
pub proof fn lemma_devnet_collators_are_alice_and_bob(k: DevKeys)
    ensures
        spec_development_config(k).genesis.invulnerables == seq![k.alice, k.bob],
        spec_development_config(k).genesis.session_keys == seq![
            (k.alice, k.alice, SessionKeys { aura: k.alice_aura }),
            (k.bob, k.bob, SessionKeys { aura: k.bob_aura }),
        ],
        spec_local_testnet_config(k).genesis.invulnerables == seq![k.alice, k.bob],
        spec_local_testnet_config(k).genesis.session_keys == seq![
            (k.alice, k.alice, SessionKeys { aura: k.alice_aura }),
            (k.bob, k.bob, SessionKeys { aura: k.bob_aura }),
        ],
{
    let g = spec_development_config(k).genesis;
    assert(g.invulnerables =~= seq![k.alice, k.bob]);
    assert(g.session_keys =~= seq![
        (k.alice, k.alice, SessionKeys { aura: k.alice_aura }),
        (k.bob, k.bob, SessionKeys { aura: k.bob_aura }),
    ]);
    let l = spec_local_testnet_config(k).genesis;
    assert(l.invulnerables =~= seq![k.alice, k.bob]);
    assert(l.session_keys =~= seq![
        (k.alice, k.alice, SessionKeys { aura: k.alice_aura }),
        (k.bob, k.bob, SessionKeys { aura: k.bob_aura }),
    ]);
}

} // verus!
