//! Chain specifications of the mainnet runtime.

use vstd::prelude::*;
use vstd::relations::sorted_by;
use crate::chain_spec::{
    ChainSpecPlan, ChainSpecView, ChainType, DevKeys, SessionKeys, GenesisPlan, GenesisView, AccountKey,
    AccountKeyView, ENDOWMENT, PARA_ID, chain_spec_plan, dev_endowed, dev_invulnerables, dev_keys,
    dev_seeds_available, dev_seeds_derivable, genesis_plan, get_multisig_sudo_key,
    spec_chain_spec, spec_dev_endowed, spec_dev_invulnerables, spec_dev_keys, spec_genesis,
    spec_unit_properties,
};
use crate::keys::{
    AccountId, AuraId, account_order, get_account_id_from_seed, lemma_account_order_total,
    seed_derivable, spec_account_from_seed, spec_sorted_accounts, try_get_from_seed,
};

verus! {

/// The mainnet runtime's genesis: the given collators, endowed accounts,
/// sudo key (endowed too, so that it can send transactions) and parachain
/// id; Alice and Bob own the genesis assets.
pub fn mainnet_genesis(
    invulnerables: Vec<(AccountId, AuraId)>,
    endowed_accounts: Vec<AccountId>,
    root_key: AccountKey,
    id: u32,
) -> (r: GenesisPlan)
    requires
        seed_derivable("Alice"@),
        seed_derivable("Bob"@),
    ensures
        r@ == spec_genesis(
            invulnerables@,
            endowed_accounts@,
            Some(root_key@),
            true,
            id,
            spec_account_from_seed("Alice"@),
            spec_account_from_seed("Bob"@),
        ),
{
    let alice = get_account_id_from_seed("Alice");
    let bob = get_account_id_from_seed("Bob");
    genesis_plan(invulnerables, endowed_accounts, Some(root_key), true, id, alice, bob)
}

/// `mainnet_genesis`, or `None` where Alice's or Bob's seed yields no key.
pub fn try_mainnet_genesis(
    invulnerables: Vec<(AccountId, AuraId)>,
    endowed_accounts: Vec<AccountId>,
    root_key: AccountKey,
    id: u32,
) -> (r: Option<GenesisPlan>)
    ensures
        r is Some <==> (seed_derivable("Alice"@) && seed_derivable("Bob"@)),
        r matches Some(g) ==> g@ == spec_genesis(
            invulnerables@,
            endowed_accounts@,
            Some(root_key@),
            true,
            id,
            spec_account_from_seed("Alice"@),
            spec_account_from_seed("Bob"@),
        ),
{
    if try_get_from_seed("Alice").is_some() && try_get_from_seed("Bob").is_some() {
        Some(mainnet_genesis(invulnerables, endowed_accounts, root_key, id))
    } else {
        None
    }
}

/// The sudo key of the mainnet chains: the 2-of-3 multisig of Charlie, Dave
/// and Eve.
pub open spec fn spec_mainnet_sudo_key(k: DevKeys) -> AccountKeyView {
    AccountKeyView::Multisig(spec_sorted_accounts(seq![k.charlie, k.dave, k.eve]), 2)
}

pub open spec fn spec_mainnet_dev_genesis(k: DevKeys) -> GenesisView {
    spec_genesis(
        spec_dev_invulnerables(k),
        spec_dev_endowed(k),
        Some(spec_mainnet_sudo_key(k)),
        true,
        PARA_ID,
        k.alice,
        k.bob,
    )
}

pub open spec fn spec_development_config(k: DevKeys) -> ChainSpecView {
    spec_chain_spec(
        "Mainnet Development"@,
        "main_dev"@,
        ChainType::Development,
        None,
        Some(spec_unit_properties()),
        spec_mainnet_dev_genesis(k),
    )
}

pub open spec fn spec_local_testnet_config(k: DevKeys) -> ChainSpecView {
    spec_chain_spec(
        "Mainnet Local Testnet"@,
        "main_local_testnet"@,
        ChainType::Local,
        Some("mainnet-local"@),
        Some(spec_unit_properties()),
        spec_mainnet_dev_genesis(k),
    )
}

fn mainnet_sudo_key(keys: &DevKeys) -> (r: AccountKey)
    ensures
        r@ == spec_mainnet_sudo_key(*keys),
{
    let mut authorities: Vec<AccountId> = Vec::new();
    authorities.push(keys.charlie);
    authorities.push(keys.dave);
    authorities.push(keys.eve);
    assert(authorities@ =~= seq![keys.charlie, keys.dave, keys.eve]);
    AccountKey::Multisig(get_multisig_sudo_key(authorities, 2))
}

fn mainnet_dev_genesis(keys: &DevKeys) -> (r: GenesisPlan)
    ensures
        r@ == spec_mainnet_dev_genesis(*keys),
{
    genesis_plan(
        dev_invulnerables(keys),
        dev_endowed(keys),
        Some(mainnet_sudo_key(keys)),
        true,
        PARA_ID,
        keys.alice,
        keys.bob,
    )
}

/// The development chain of the mainnet runtime, from the development keys.
pub fn development_config_with(keys: &DevKeys) -> (r: ChainSpecPlan)
    ensures
        r@ == spec_development_config(*keys),
        r.chain_type == ChainType::Development,
{
    chain_spec_plan(
        "Mainnet Development",
        "main_dev",
        ChainType::Development,
        None,
        "UNIT",
        mainnet_dev_genesis(keys),
    )
}

/// The local testnet of the mainnet runtime, from the development keys.
pub fn local_testnet_config_with(keys: &DevKeys) -> (r: ChainSpecPlan)
    ensures
        r@ == spec_local_testnet_config(*keys),
        r.chain_type == ChainType::Local,
{
    chain_spec_plan(
        "Mainnet Local Testnet",
        "main_local_testnet",
        ChainType::Local,
        Some("mainnet-local"),
        "UNIT",
        mainnet_dev_genesis(keys),
    )
}

/// The development chain of the mainnet runtime.
pub fn development_config() -> (r: ChainSpecPlan)
    requires
        dev_seeds_derivable(),
    ensures
        r@ == spec_development_config(spec_dev_keys()),
        r.chain_type == ChainType::Development,
{
    let keys = dev_keys();
    let genesis = mainnet_genesis(
        dev_invulnerables(&keys),
        dev_endowed(&keys),
        mainnet_sudo_key(&keys),
        PARA_ID,
    );
    chain_spec_plan("Mainnet Development", "main_dev", ChainType::Development, None, "UNIT", genesis)
}

/// The local testnet of the mainnet runtime.
pub fn local_testnet_config() -> (r: ChainSpecPlan)
    requires
        dev_seeds_derivable(),
    ensures
        r@ == spec_local_testnet_config(spec_dev_keys()),
        r.chain_type == ChainType::Local,
{
    let keys = dev_keys();
    let genesis = mainnet_genesis(
        dev_invulnerables(&keys),
        dev_endowed(&keys),
        mainnet_sudo_key(&keys),
        PARA_ID,
    );
    chain_spec_plan(
        "Mainnet Local Testnet",
        "main_local_testnet",
        ChainType::Local,
        Some("mainnet-local"),
        "UNIT",
        genesis,
    )
}

/// `development_config`, or `None` where a development seed yields no key.
pub fn try_development_config() -> (r: Option<ChainSpecPlan>)
    ensures
        r is Some <==> dev_seeds_derivable(),
        r matches Some(p) ==> p@ == spec_development_config(spec_dev_keys()),
{
    if dev_seeds_available() {
        Some(development_config())
    } else {
        None
    }
}

/// `local_testnet_config`, or `None` where a development seed yields no key.
pub fn try_local_testnet_config() -> (r: Option<ChainSpecPlan>)
    ensures
        r is Some <==> dev_seeds_derivable(),
        r matches Some(p) ==> p@ == spec_local_testnet_config(spec_dev_keys()),
{
    if dev_seeds_available() {
        Some(local_testnet_config())
    } else {
        None
    }
}

/// Both mainnet-runtime chains announce in their extensions the parachain id
/// that their genesis sets and share one genesis. Their sudo key is a 2-of-3
/// multisig whose three signatories stand in ascending byte order, and it is
/// endowed like the endowed accounts.
pub proof fn lemma_mainnet_chain_specs_consistent(k: DevKeys)
    ensures
        spec_development_config(k).extensions.para_id == spec_development_config(k).genesis.parachain_id,
        spec_local_testnet_config(k).extensions.para_id
            == spec_local_testnet_config(k).genesis.parachain_id,
        spec_mainnet_sudo_key(k) matches AccountKeyView::Multisig(signatories, threshold) && {
            &&& signatories.len() == 3
            &&& threshold == 2
            &&& sorted_by(signatories, account_order())
        },
        spec_development_config(k).genesis.balances.len() == 13,
        spec_development_config(k).genesis.balances[12] == (spec_mainnet_sudo_key(k), ENDOWMENT),
        spec_development_config(k).genesis == spec_local_testnet_config(k).genesis,
{
    broadcast use vstd::seq_lib::to_multiset_len;

    let authorities = seq![k.charlie, k.dave, k.eve];
    lemma_account_order_total();
    authorities.lemma_sort_by_ensures(account_order());
    assert(authorities.to_multiset().len() == 3);
}

/// The development chain is a chain of type `Development` named
/// "Mainnet Development" with id "main_dev" and no protocol id; the local testnet is
/// a chain of type `Local` named "Mainnet Local Testnet" with id "main_local_testnet"
/// and protocol id "mainnet-local". Both announce 12 token decimals and SS58
/// format 42.
pub proof fn lemma_mainnet_chain_metadata(k: DevKeys)
    ensures
        spec_development_config(k).chain_type == ChainType::Development,
        spec_development_config(k).name == "Mainnet Development"@,
        spec_development_config(k).id == "main_dev"@,
        spec_development_config(k).protocol_id is None,
        spec_development_config(k).properties matches Some(p) && p.token_symbol == "UNIT"@
            && p.token_decimals == 12 && p.ss58_format == 42,
        spec_local_testnet_config(k).chain_type == ChainType::Local,
        spec_local_testnet_config(k).name == "Mainnet Local Testnet"@,
        spec_local_testnet_config(k).id == "main_local_testnet"@,
        spec_local_testnet_config(k).protocol_id == Some("mainnet-local"@),
        spec_local_testnet_config(k).properties matches Some(p) && p.token_symbol == "UNIT"@
            && p.token_decimals == 12 && p.ss58_format == 42,
{
}

/// Both chains start with exactly two invulnerable collators, Alice and
/// Bob, in that order, each registered for sessions with its own account as
/// validator id and its own Aura key.
pub proof fn lemma_mainnet_collators_are_alice_and_bob(k: DevKeys)
    ensures
        spec_development_config(k).genesis.invulnerables == seq![k.alice, k.bob],
        spec_development_config(k).genesis.session_keys == seq![
            (k.alice, k.alice, SessionKeys { aura: k.alice_aura }),
            (k.bob, k.bob, SessionKeys { aura: k.bob_aura }),
        ],
        spec_local_testnet_config(k).genesis.invulnerables == seq![k.alice, k.bob],
        spec_local_testnet_config(k).genesis.session_keys == seq![
            (k.alice, k.alice, SessionKeys { aura: k.alice_aura }),
            (k.bob, k.bob, SessionKeys { aura: k.bob_aura }),
        ],
{
    let g = spec_development_config(k).genesis;
    assert(g.invulnerables =~= seq![k.alice, k.bob]);
    assert(g.session_keys =~= seq![
        (k.alice, k.alice, SessionKeys { aura: k.alice_aura }),
        (k.bob, k.bob, SessionKeys { aura: k.bob_aura }),
    ]);
    let l = spec_local_testnet_config(k).genesis;
    assert(l.invulnerables =~= seq![k.alice, k.bob]);
    assert(l.session_keys =~= seq![
        (k.alice, k.alice, SessionKeys { aura: k.alice_aura }),
        (k.bob, k.bob, SessionKeys { aura: k.bob_aura }),
    ]);
}

} // verus!
