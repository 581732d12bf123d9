//! Chain specifications of the parachain as plain plans: the chain's
//! metadata, its relay-chain extensions, and the genesis state that the
//! node turns into the runtime's genesis configuration.

use vstd::prelude::*;
use crate::currency::{Balance, EXISTENTIAL_DEPOSIT};
use crate::keys::{
    AccountId, AuraId, get_account_id_from_seed, get_collator_keys_from_seed,
    lemma_sorted_accounts_order_independent, seed_derivable, sort_accounts,
    spec_account_from_seed, spec_aura_from_seed, spec_sorted_accounts, try_get_from_seed,
};

pub mod devnet;
pub mod mainnet;

verus! {

/// The parachain id of this chain.
pub const PARA_ID: u32 = 2000;

/// The free balance given at genesis to every endowed account: 2^60.
pub const ENDOWMENT: Balance = 1_152_921_504_606_846_976;

/// The candidacy bond of collator selection: sixteen existential deposits.
pub const CANDIDACY_BOND: Balance = EXISTENTIAL_DEPOSIT * 16;

/// The extensions of a chain specification.
pub struct Extensions {
    /// The relay chain of the Parachain.
    pub relay_chain: String,
    /// The id of the Parachain.
    pub para_id: u32,
}

/// The extensions, by their values.
#[verifier::ext_equal]
pub struct ExtensionsView {
    pub relay_chain: Seq<char>,
    pub para_id: u32,
}

impl View for Extensions {
    type V = ExtensionsView;

    open spec fn view(&self) -> ExtensionsView {
        ExtensionsView { relay_chain: self.relay_chain@, para_id: self.para_id }
    }
}

/// The kind of network a chain specification describes.
#[derive(Debug, Clone, Copy, PartialEq, Eq, Structural)]
pub enum ChainType {
    Development,
    Local,
}

/// Token properties announced by a chain specification.
pub struct ChainProperties {
    pub token_symbol: String,
    pub token_decimals: u32,
    pub ss58_format: u32,
}

#[verifier::ext_equal]
pub struct ChainPropertiesView {
    pub token_symbol: Seq<char>,
    pub token_decimals: u32,
    pub ss58_format: u32,
}

impl View for ChainProperties {
    type V = ChainPropertiesView;

    open spec fn view(&self) -> ChainPropertiesView {
        ChainPropertiesView {
            token_symbol: self.token_symbol@,
            token_decimals: self.token_decimals,
            ss58_format: self.ss58_format,
        }
    }
}

/// The session keys of a collator: its Aura key.
#[derive(Debug, Clone, Copy, PartialEq, Eq)]
pub struct SessionKeys {
    pub aura: AuraId,
}

/// Generates the session keys of the mainnet runtime from individual keys.
pub fn mainnet_session_keys(keys: AuraId) -> (r: SessionKeys)
    ensures
        r == (SessionKeys { aura: keys }),
{
    SessionKeys { aura: keys }
}

/// Generates the session keys of the devnet runtime from individual keys.
pub fn devnet_session_keys(keys: AuraId) -> (r: SessionKeys)
    ensures
        r == (SessionKeys { aura: keys }),
{
    SessionKeys { aura: keys }
}

/// A multisig account by what derives it: its signatories in ascending byte
/// order and the number of them that must approve.
#[derive(Debug, PartialEq, Eq)]
pub struct MultisigAccount {
    pub signatories: Vec<AccountId>,
    pub threshold: u16,
}

/// Builds the multisig key used as sudo key on mainnet from an authority set
/// and a threshold. The authorities are sorted, so that one authority set
/// gives one key whatever order it is listed in. The key is given by these
/// signatories and this threshold; the account id that the multisig pallet
/// derives from them is not computed by this library.
pub fn get_multisig_sudo_key(authority_set: Vec<AccountId>, threshold: u16) -> (r: MultisigAccount)
    requires
        threshold > 0,
        authority_set@.len() > 0,
        authority_set@.len() >= threshold,
    ensures
        r.signatories@ == spec_sorted_accounts(authority_set@),
        r.threshold == threshold,
{
    MultisigAccount { signatories: sort_accounts(authority_set), threshold }
}

/// A single authority set yields a single multisig sudo key, whatever the
/// order in which its members are listed.
pub proof fn lemma_multisig_sudo_key_order_independent(set1: Seq<AccountId>, set2: Seq<AccountId>)
    requires
        set1.to_multiset() == set2.to_multiset(),
    ensures
        spec_sorted_accounts(set1) == spec_sorted_accounts(set2),
{
    lemma_sorted_accounts_order_independent(set1, set2);
}

/// An account of the genesis state: a plain account, or the multisig
/// account of some signatories (the sudo key on mainnet).
#[derive(Debug, PartialEq, Eq)]
pub enum AccountKey {
    /// A plain account.
    Account(AccountId),
    /// The multisig account of some signatories.
    Multisig(MultisigAccount),
}

fn copy_accounts(v: &Vec<AccountId>) -> (r: Vec<AccountId>)
    ensures
        r@ == v@,
{
    let mut r: Vec<AccountId> = Vec::new();
    let mut i: usize = 0;
    while i < v.len()
        invariant
            0 <= i <= v@.len(),
            r@ =~= v@.take(i as int),
        decreases v@.len() - i,
    {
        r.push(v[i]);
        i = i + 1;
        assert(r@ =~= v@.take(i as int));
    }
    assert(v@.take(v@.len() as int) =~= v@);
    r
}

impl AccountKey {
    /// A second copy of this account.
    pub fn duplicate(&self) -> (r: AccountKey)
        ensures
            r@ == self@,
    {
        match self {
            AccountKey::Account(a) => AccountKey::Account(*a),
            AccountKey::Multisig(m) => AccountKey::Multisig(
                MultisigAccount { signatories: copy_accounts(&m.signatories), threshold: m.threshold },
            ),
        }
    }
}

pub enum AccountKeyView {
    Account(AccountId),
    Multisig(Seq<AccountId>, u16),
}

impl View for AccountKey {
    type V = AccountKeyView;

    open spec fn view(&self) -> AccountKeyView {
        match self {
            AccountKey::Account(a) => AccountKeyView::Account(*a),
            AccountKey::Multisig(m) => AccountKeyView::Multisig(m.signatories@, m.threshold),
        }
    }
}

/// A genesis asset: id, owner, whether it is sufficient, minimum balance.
#[derive(Debug, Clone, Copy, PartialEq, Eq)]
pub struct AssetPlan {
    pub id: u32,
    pub owner: AccountId,
    pub is_sufficient: bool,
    pub min_balance: Balance,
}

/// Genesis metadata of an asset.
pub struct AssetMetadataPlan {
    pub id: u32,
    pub name: String,
    pub symbol: String,
    pub decimals: u8,
}

#[verifier::ext_equal]
pub struct AssetMetadataView {
    pub id: u32,
    pub name: Seq<char>,
    pub symbol: Seq<char>,
    pub decimals: u8,
}

impl View for AssetMetadataPlan {
    type V = AssetMetadataView;

    open spec fn view(&self) -> AssetMetadataView {
        AssetMetadataView {
            id: self.id,
            name: self.name@,
            symbol: self.symbol@,
            decimals: self.decimals,
        }
    }
}

/// A genesis holding of an asset.
#[derive(Debug, Clone, Copy, PartialEq, Eq)]
pub struct AssetAccountPlan {
    pub id: u32,
    pub account: AccountId,
    pub balance: Balance,
}

/// The genesis state of the parachain, by the values that the chain
/// specification chooses; every other part of the runtime's genesis takes
/// its default.
pub struct GenesisPlan {
    /// Free balances: the endowed accounts and, where it is endowed too, the
    /// sudo key after them.
    pub balances: Vec<(AccountKey, Balance)>,
    /// Assets, their metadata and their holders.
    pub assets: Vec<AssetPlan>,
    pub asset_metadata: Vec<AssetMetadataPlan>,
    pub asset_accounts: Vec<AssetAccountPlan>,
    /// The parachain id.
    pub parachain_id: u32,
    /// Invulnerable collators and the candidacy bond of collator selection.
    pub invulnerables: Vec<AccountId>,
    pub candidacy_bond: Balance,
    /// Session keys: account id, validator id, keys.
    pub session_keys: Vec<(AccountId, AccountId, SessionKeys)>,
    /// The sudo key.
    pub sudo_key: Option<AccountKey>,
    /// Members of the council.
    pub council_members: Vec<AccountId>,
    /// Whether the safe XCM version is set to the current version of XCM.
    pub safe_xcm_version_current: bool,
}

#[verifier::ext_equal]
pub struct GenesisView {
    pub balances: Seq<(AccountKeyView, Balance)>,
    pub assets: Seq<AssetPlan>,
    pub asset_metadata: Seq<AssetMetadataView>,
    pub asset_accounts: Seq<AssetAccountPlan>,
    pub parachain_id: u32,
    pub invulnerables: Seq<AccountId>,
    pub candidacy_bond: Balance,
    pub session_keys: Seq<(AccountId, AccountId, SessionKeys)>,
    pub sudo_key: Option<AccountKeyView>,
    pub council_members: Seq<AccountId>,
    pub safe_xcm_version_current: bool,
}

impl View for GenesisPlan {
    type V = GenesisView;

    open spec fn view(&self) -> GenesisView {
        GenesisView {
            balances: self.balances@.map_values(|b: (AccountKey, Balance)| (b.0@, b.1)),
            assets: self.assets@,
            asset_metadata: self.asset_metadata@.map_values(|m: AssetMetadataPlan| m@),
            asset_accounts: self.asset_accounts@,
            parachain_id: self.parachain_id,
            invulnerables: self.invulnerables@,
            candidacy_bond: self.candidacy_bond,
            session_keys: self.session_keys@,
            sudo_key: match self.sudo_key {
                Some(k) => Some(k@),
                None => None,
            },
            council_members: self.council_members@,
            safe_xcm_version_current: self.safe_xcm_version_current,
        }
    }
}

/// The number of endowed accounts that sit on the council at genesis.
pub const COUNCIL_SIZE: usize = 4;

/// Each endowed account with the genesis endowment, followed by the sudo
/// key with the same endowment where `endow_sudo_key` holds.
pub open spec fn spec_endowed_balances(
    endowed: Seq<AccountId>,
    sudo_key: Option<AccountKeyView>,
    endow_sudo_key: bool,
) -> Seq<(AccountKeyView, Balance)> {
    let accounts = endowed.map_values(|a: AccountId| (AccountKeyView::Account(a), ENDOWMENT));
    match sudo_key {
        Some(k) => if endow_sudo_key {
            accounts.push((k, ENDOWMENT))
        } else {
            accounts
        },
        None => accounts,
    }
}

/// The first (at most four) endowed accounts.
pub open spec fn spec_council(endowed: Seq<AccountId>) -> Seq<AccountId> {
    if endowed.len() <= COUNCIL_SIZE {
        endowed
    } else {
        endowed.take(COUNCIL_SIZE as int)
    }
}

/// The accounts of the invulnerable collators.
pub open spec fn spec_invulnerable_accounts(invulnerables: Seq<(AccountId, AuraId)>) -> Seq<AccountId> {
    invulnerables.map_values(|p: (AccountId, AuraId)| p.0)
}

/// The session keys of the invulnerable collators: each account is its own
/// validator id.
pub open spec fn spec_session_keys(invulnerables: Seq<(AccountId, AuraId)>) -> Seq<
    (AccountId, AccountId, SessionKeys),
> {
    invulnerables.map_values(|p: (AccountId, AuraId)| (p.0, p.0, SessionKeys { aura: p.1 }))
}

/// The two genesis assets, owned by `alice` and `bob`, both sufficient with a
/// minimum balance of 100_000_000_000.
pub open spec fn spec_assets(alice: AccountId, bob: AccountId) -> Seq<AssetPlan> {
    seq![
        AssetPlan { id: 1, owner: alice, is_sufficient: true, min_balance: 100_000_000_000 },
        AssetPlan { id: 2, owner: bob, is_sufficient: true, min_balance: 100_000_000_000 },
    ]
}

/// Metadata of the genesis assets: `asset-1`/`ALT1` and `asset-2`/`ALT2`,
/// ten decimals each.
pub open spec fn spec_asset_metadata() -> Seq<AssetMetadataView> {
    seq![
        AssetMetadataView { id: 1, name: "asset-1"@, symbol: "ALT1"@, decimals: 10 },
        AssetMetadataView { id: 2, name: "asset-2"@, symbol: "ALT2"@, decimals: 10 },
    ]
}

/// `alice` holds 500_000_000_000 of asset 1 and `bob` as much of asset 2.
pub open spec fn spec_asset_accounts(alice: AccountId, bob: AccountId) -> Seq<AssetAccountPlan> {
    seq![
        AssetAccountPlan { id: 1, account: alice, balance: 500_000_000_000 },
        AssetAccountPlan { id: 2, account: bob, balance: 500_000_000_000 },
    ]
}

/// The genesis state chosen from the collators, the endowed accounts, the
/// sudo key and whether it is endowed, the parachain id, and the two accounts
/// (Alice's and Bob's) that own the genesis assets.
pub open spec fn spec_genesis(
    invulnerables: Seq<(AccountId, AuraId)>,
    endowed: Seq<AccountId>,
    sudo_key: Option<AccountKeyView>,
    endow_sudo_key: bool,
    id: u32,
    alice: AccountId,
    bob: AccountId,
) -> GenesisView {
    GenesisView {
        balances: spec_endowed_balances(endowed, sudo_key, endow_sudo_key),
        assets: spec_assets(alice, bob),
        asset_metadata: spec_asset_metadata(),
        asset_accounts: spec_asset_accounts(alice, bob),
        parachain_id: id,
        invulnerables: spec_invulnerable_accounts(invulnerables),
        candidacy_bond: CANDIDACY_BOND,
        session_keys: spec_session_keys(invulnerables),
        sudo_key,
        council_members: spec_council(endowed),
        safe_xcm_version_current: true,
    }
}

fn endowed_balances(
    endowed: &Vec<AccountId>,
    sudo_key: &Option<AccountKey>,
    endow_sudo_key: bool,
) -> (r: Vec<(AccountKey, Balance)>)
    ensures
        r@.map_values(|b: (AccountKey, Balance)| (b.0@, b.1)) == spec_endowed_balances(
            endowed@,
            match sudo_key {
                Some(k) => Some(k@),
                None => None,
            },
            endow_sudo_key,
        ),
{
    let mut r: Vec<(AccountKey, Balance)> = Vec::new();
    let mut i: usize = 0;
    while i < endowed.len()
        invariant
            0 <= i <= endowed@.len(),
            r@.len() == i,
            forall|k: int|
                0 <= k < i ==> #[trigger] r@[k].0@ == AccountKeyView::Account(endowed@[k])
                    && r@[k].1 == ENDOWMENT,
        decreases endowed@.len() - i,
    {
        r.push((AccountKey::Account(endowed[i]), ENDOWMENT));
        i = i + 1;
    }
    let ghost accounts = r@;
    if endow_sudo_key {
        match sudo_key {
            Some(k) => r.push((k.duplicate(), ENDOWMENT)),
            None => {},
        }
    }
    let ghost sudo_view = match sudo_key {
        Some(k) => Some(k@),
        None => None,
    };
    let ghost expected = spec_endowed_balances(endowed@, sudo_view, endow_sudo_key);
    assert(accounts.map_values(|b: (AccountKey, Balance)| (b.0@, b.1)) =~= endowed@.map_values(
        |a: AccountId| (AccountKeyView::Account(a), ENDOWMENT),
    ));
    assert(r@.map_values(|b: (AccountKey, Balance)| (b.0@, b.1)) =~= expected);
    r
}

fn council(endowed: &Vec<AccountId>) -> (r: Vec<AccountId>)
    ensures
        r@ == spec_council(endowed@),
{
    let mut r: Vec<AccountId> = Vec::new();
    let mut i: usize = 0;
    while i < endowed.len() && i < COUNCIL_SIZE
        invariant
            0 <= i <= endowed@.len(),
            i <= COUNCIL_SIZE,
            r@ =~= endowed@.take(i as int),
        decreases endowed@.len() - i,
    {
        r.push(endowed[i]);
        i = i + 1;
        assert(r@ =~= endowed@.take(i as int));
    }
    assert(r@ =~= spec_council(endowed@));
    r
}

fn collator_plans(invulnerables: &Vec<(AccountId, AuraId)>) -> (r: (
    Vec<AccountId>,
    Vec<(AccountId, AccountId, SessionKeys)>,
))
    ensures
        r.0@ == spec_invulnerable_accounts(invulnerables@),
        r.1@ == spec_session_keys(invulnerables@),
{
    let mut accounts: Vec<AccountId> = Vec::new();
    let mut keys: Vec<(AccountId, AccountId, SessionKeys)> = Vec::new();
    let mut i: usize = 0;
    while i < invulnerables.len()
        invariant
            0 <= i <= invulnerables@.len(),
            accounts@.len() == i,
            keys@.len() == i,
            forall|k: int| 0 <= k < i ==> #[trigger] accounts@[k] == invulnerables@[k].0,
            forall|k: int|
                0 <= k < i ==> #[trigger] keys@[k] == (
                    invulnerables@[k].0,
                    invulnerables@[k].0,
                    SessionKeys { aura: invulnerables@[k].1 },
                ),
        decreases invulnerables@.len() - i,
    {
        let (acc, aura) = invulnerables[i];
        accounts.push(acc);
        keys.push((acc, acc, SessionKeys { aura }));
        i = i + 1;
    }
    assert(accounts@ =~= spec_invulnerable_accounts(invulnerables@));
    assert(keys@ =~= spec_session_keys(invulnerables@));
    (accounts, keys)
}

/// Builds the genesis state shared by both runtimes, the genesis assets
/// belonging to `alice` and `bob`.
pub fn genesis_plan(
    invulnerables: Vec<(AccountId, AuraId)>,
    endowed: Vec<AccountId>,
    sudo_key: Option<AccountKey>,
    endow_sudo_key: bool,
    id: u32,
    alice: AccountId,
    bob: AccountId,
) -> (r: GenesisPlan)
    ensures
        r@ == spec_genesis(
            invulnerables@,
            endowed@,
            match sudo_key {
                Some(k) => Some(k@),
                None => None,
            },
            endow_sudo_key,
            id,
            alice,
            bob,
        ),
{
    let balances = endowed_balances(&endowed, &sudo_key, endow_sudo_key);
    let council_members = council(&endowed);
    let (invulnerable_accounts, session_keys) = collator_plans(&invulnerables);
    let mut assets: Vec<AssetPlan> = Vec::new();
    assets.push(AssetPlan { id: 1, owner: alice, is_sufficient: true, min_balance: 100_000_000_000 });
    assets.push(AssetPlan { id: 2, owner: bob, is_sufficient: true, min_balance: 100_000_000_000 });
    let mut asset_metadata: Vec<AssetMetadataPlan> = Vec::new();
    asset_metadata.push(
        AssetMetadataPlan { id: 1, name: "asset-1".to_owned(), symbol: "ALT1".to_owned(), decimals: 10 },
    );
    asset_metadata.push(
        AssetMetadataPlan { id: 2, name: "asset-2".to_owned(), symbol: "ALT2".to_owned(), decimals: 10 },
    );
    let mut asset_accounts: Vec<AssetAccountPlan> = Vec::new();
    asset_accounts.push(AssetAccountPlan { id: 1, account: alice, balance: 500_000_000_000 });
    asset_accounts.push(AssetAccountPlan { id: 2, account: bob, balance: 500_000_000_000 });
    let r = GenesisPlan {
        balances,
        assets,
        asset_metadata,
        asset_accounts,
        parachain_id: id,
        invulnerables: invulnerable_accounts,
        candidacy_bond: CANDIDACY_BOND,
        session_keys,
        sudo_key,
        council_members,
        safe_xcm_version_current: true,
    };
    assert(r@.assets =~= spec_assets(alice, bob));
    assert(r@.asset_metadata =~= spec_asset_metadata());
    assert(r@.asset_accounts =~= spec_asset_accounts(alice, bob));
    r
}


/// A chain specification: its metadata, extensions and genesis state.
pub struct ChainSpecPlan {
    pub name: String,
    pub id: String,
    pub chain_type: ChainType,
    pub boot_nodes: Vec<String>,
    /// Telemetry endpoints, each with its verbosity.
    pub telemetry_endpoints: Option<Vec<(String, u8)>>,
    pub protocol_id: Option<String>,
    pub fork_id: Option<String>,
    pub properties: Option<ChainProperties>,
    pub extensions: Extensions,
    pub genesis: GenesisPlan,
}

#[verifier::ext_equal]
pub struct ChainSpecView {
    pub name: Seq<char>,
    pub id: Seq<char>,
    pub chain_type: ChainType,
    pub boot_nodes: Seq<Seq<char>>,
    pub telemetry_endpoints: Option<Seq<(Seq<char>, u8)>>,
    pub protocol_id: Option<Seq<char>>,
    pub fork_id: Option<Seq<char>>,
    pub properties: Option<ChainPropertiesView>,
    pub extensions: ExtensionsView,
    pub genesis: GenesisView,
}

impl View for ChainSpecPlan {
    type V = ChainSpecView;

    open spec fn view(&self) -> ChainSpecView {
        ChainSpecView {
            name: self.name@,
            id: self.id@,
            chain_type: self.chain_type,
            boot_nodes: self.boot_nodes@.map_values(|b: String| b@),
            telemetry_endpoints: match self.telemetry_endpoints {
                Some(t) => Some(t@.map_values(|e: (String, u8)| (e.0@, e.1))),
                None => None,
            },
            protocol_id: match self.protocol_id {
                Some(p) => Some(p@),
                None => None,
            },
            fork_id: match self.fork_id {
                Some(f) => Some(f@),
                None => None,
            },
            properties: match self.properties {
                Some(p) => Some(p@),
                None => None,
            },
            extensions: self.extensions@,
            genesis: self.genesis@,
        }
    }
}

/// The relay chain that the chain specifications name.
pub open spec fn spec_relay_chain() -> Seq<char> {
    "rococo-local"@
}

/// The extensions of every chain specification here: the local Rococo relay
/// chain and this parachain's id.
pub open spec fn spec_extensions() -> ExtensionsView {
    ExtensionsView { relay_chain: spec_relay_chain(), para_id: PARA_ID }
}

/// The base currency of a chain: its unit name `symbol`, twelve decimal
/// places, SS58 format 42.
pub open spec fn spec_token_properties(symbol: Seq<char>) -> ChainPropertiesView {
    ChainPropertiesView { token_symbol: symbol, token_decimals: 12, ss58_format: 42 }
}

/// The base currency named `UNIT`.
pub open spec fn spec_unit_properties() -> ChainPropertiesView {
    spec_token_properties("UNIT"@)
}

/// The chain specification with the given metadata and genesis state, no
/// boot nodes, no telemetry endpoints, no fork id and the usual extensions.
pub open spec fn spec_chain_spec(
    name: Seq<char>,
    id: Seq<char>,
    chain_type: ChainType,
    protocol_id: Option<Seq<char>>,
    properties: Option<ChainPropertiesView>,
    genesis: GenesisView,
) -> ChainSpecView {
    ChainSpecView {
        name,
        id,
        chain_type,
        boot_nodes: Seq::empty(),
        telemetry_endpoints: None,
        protocol_id,
        fork_id: None,
        properties,
        extensions: spec_extensions(),
        genesis,
    }
}

fn extensions() -> (r: Extensions)
    ensures
        r@ == spec_extensions(),
{
    Extensions { relay_chain: "rococo-local".to_owned(), para_id: PARA_ID }
}

fn token_properties(symbol: &str) -> (r: ChainProperties)
    ensures
        r@ == spec_token_properties(symbol@),
{
    ChainProperties { token_symbol: symbol.to_owned(), token_decimals: 12, ss58_format: 42 }
}

fn chain_spec_plan(
    name: &str,
    id: &str,
    chain_type: ChainType,
    protocol_id: Option<&str>,
    token_symbol: &str,
    genesis: GenesisPlan,
) -> (r: ChainSpecPlan)
    ensures
        r@ == spec_chain_spec(
            name@,
            id@,
            chain_type,
            match protocol_id {
                Some(p) => Some(p@),
                None => None,
            },
            Some(spec_token_properties(token_symbol@)),
            genesis@,
        ),
{
    let protocol_id = match protocol_id {
        Some(p) => Some(p.to_owned()),
        None => None,
    };
    let properties = Some(token_properties(token_symbol));
    let r = ChainSpecPlan {
        name: name.to_owned(),
        id: id.to_owned(),
        chain_type,
        boot_nodes: Vec::new(),
        telemetry_endpoints: None,
        protocol_id,
        fork_id: None,
        properties,
        extensions: extensions(),
        genesis,
    };
    assert(r@.boot_nodes =~= Seq::<Seq<char>>::empty());
    r
}

/// Whether every development seed that the chain specifications use yields
/// a key pair.
pub open spec fn dev_seeds_derivable() -> bool {
    &&& seed_derivable("Alice"@)
    &&& seed_derivable("Bob"@)
    &&& seed_derivable("Charlie"@)
    &&& seed_derivable("Dave"@)
    &&& seed_derivable("Eve"@)
    &&& seed_derivable("Ferdie"@)
    &&& seed_derivable("Alice//stash"@)
    &&& seed_derivable("Bob//stash"@)
    &&& seed_derivable("Charlie//stash"@)
    &&& seed_derivable("Dave//stash"@)
    &&& seed_derivable("Eve//stash"@)
    &&& seed_derivable("Ferdie//stash"@)
}

/// Tests `dev_seeds_derivable`.
pub fn dev_seeds_available() -> (r: bool)
    ensures
        r == dev_seeds_derivable(),
{
    try_get_from_seed("Alice").is_some() && try_get_from_seed("Bob").is_some()
        && try_get_from_seed("Charlie").is_some() && try_get_from_seed("Dave").is_some()
        && try_get_from_seed("Eve").is_some() && try_get_from_seed("Ferdie").is_some()
        && try_get_from_seed("Alice//stash").is_some() && try_get_from_seed("Bob//stash").is_some()
        && try_get_from_seed("Charlie//stash").is_some() && try_get_from_seed(
        "Dave//stash",
    ).is_some() && try_get_from_seed("Eve//stash").is_some() && try_get_from_seed(
        "Ferdie//stash",
    ).is_some()
}

/// The development accounts and collator keys that the chain
/// specifications use.
#[derive(Debug, Clone, Copy, PartialEq, Eq)]
pub struct DevKeys {
    pub alice: AccountId,
    pub bob: AccountId,
    pub charlie: AccountId,
    pub dave: AccountId,
    pub eve: AccountId,
    pub ferdie: AccountId,
    pub alice_stash: AccountId,
    pub bob_stash: AccountId,
    pub charlie_stash: AccountId,
    pub dave_stash: AccountId,
    pub eve_stash: AccountId,
    pub ferdie_stash: AccountId,
    pub alice_aura: AuraId,
    pub bob_aura: AuraId,
}

/// The keys of the development seeds.
pub open spec fn spec_dev_keys() -> DevKeys {
    DevKeys {
        alice: spec_account_from_seed("Alice"@),
        bob: spec_account_from_seed("Bob"@),
        charlie: spec_account_from_seed("Charlie"@),
        dave: spec_account_from_seed("Dave"@),
        eve: spec_account_from_seed("Eve"@),
        ferdie: spec_account_from_seed("Ferdie"@),
        alice_stash: spec_account_from_seed("Alice//stash"@),
        bob_stash: spec_account_from_seed("Bob//stash"@),
        charlie_stash: spec_account_from_seed("Charlie//stash"@),
        dave_stash: spec_account_from_seed("Dave//stash"@),
        eve_stash: spec_account_from_seed("Eve//stash"@),
        ferdie_stash: spec_account_from_seed("Ferdie//stash"@),
        alice_aura: spec_aura_from_seed("Alice"@),
        bob_aura: spec_aura_from_seed("Bob"@),
    }
}

/// Derives the keys of the development seeds.
pub fn dev_keys() -> (r: DevKeys)
    requires
        dev_seeds_derivable(),
    ensures
        r == spec_dev_keys(),
{
    DevKeys {
        alice: get_account_id_from_seed("Alice"),
        bob: get_account_id_from_seed("Bob"),
        charlie: get_account_id_from_seed("Charlie"),
        dave: get_account_id_from_seed("Dave"),
        eve: get_account_id_from_seed("Eve"),
        ferdie: get_account_id_from_seed("Ferdie"),
        alice_stash: get_account_id_from_seed("Alice//stash"),
        bob_stash: get_account_id_from_seed("Bob//stash"),
        charlie_stash: get_account_id_from_seed("Charlie//stash"),
        dave_stash: get_account_id_from_seed("Dave//stash"),
        eve_stash: get_account_id_from_seed("Eve//stash"),
        ferdie_stash: get_account_id_from_seed("Ferdie//stash"),
        alice_aura: get_collator_keys_from_seed("Alice"),
        bob_aura: get_collator_keys_from_seed("Bob"),
    }
}

/// The initial collators of the development chains: Alice and Bob.
pub open spec fn spec_dev_invulnerables(k: DevKeys) -> Seq<(AccountId, AuraId)> {
    seq![(k.alice, k.alice_aura), (k.bob, k.bob_aura)]
}

/// The endowed accounts of the development chains: the six well-known
/// development accounts, then their stash accounts.
pub open spec fn spec_dev_endowed(k: DevKeys) -> Seq<AccountId> {
    seq![
        k.alice,
        k.bob,
        k.charlie,
        k.dave,
        k.eve,
        k.ferdie,
        k.alice_stash,
        k.bob_stash,
        k.charlie_stash,
        k.dave_stash,
        k.eve_stash,
        k.ferdie_stash,
    ]
}

fn dev_invulnerables(k: &DevKeys) -> (r: Vec<(AccountId, AuraId)>)
    ensures
        r@ == spec_dev_invulnerables(*k),
{
    let mut r: Vec<(AccountId, AuraId)> = Vec::new();
    r.push((k.alice, k.alice_aura));
    r.push((k.bob, k.bob_aura));
    assert(r@ =~= spec_dev_invulnerables(*k));
    r
}

fn dev_endowed(k: &DevKeys) -> (r: Vec<AccountId>)
    ensures
        r@ == spec_dev_endowed(*k),
{
    let mut r: Vec<AccountId> = Vec::new();
    r.push(k.alice);
    r.push(k.bob);
    r.push(k.charlie);
    r.push(k.dave);
    r.push(k.eve);
    r.push(k.ferdie);
    r.push(k.alice_stash);
    r.push(k.bob_stash);
    r.push(k.charlie_stash);
    r.push(k.dave_stash);
    r.push(k.eve_stash);
    r.push(k.ferdie_stash);
    assert(r@ =~= spec_dev_endowed(*k));
    r
}

// ---------------------------------------------------------------------------
// Laws of the genesis state
// ---------------------------------------------------------------------------

/// Every endowed account receives the genesis endowment, in the order in
/// which the accounts are given; after them the sudo key receives it too
/// where it is endowed, and no other account does.
pub proof fn lemma_genesis_endows_each_account(
    invulnerables: Seq<(AccountId, AuraId)>,
    endowed: Seq<AccountId>,
    sudo_key: Option<AccountKeyView>,
    endow_sudo_key: bool,
    id: u32,
    alice: AccountId,
    bob: AccountId,
)
    ensures
        ({
            let g = spec_genesis(invulnerables, endowed, sudo_key, endow_sudo_key, id, alice, bob);
            &&& g.balances.len() == endowed.len() + if endow_sudo_key && sudo_key is Some {
                1int
            } else {
                0int
            }
            &&& forall|i: int|
                0 <= i < endowed.len() ==> #[trigger] g.balances[i] == (
                    AccountKeyView::Account(endowed[i]),
                    ENDOWMENT,
                )
            &&& (endow_sudo_key && sudo_key is Some) ==> g.balances[endowed.len() as int] == (
                sudo_key.unwrap(),
                ENDOWMENT,
            )
        }),
{
}

/// The council at genesis is made of the first endowed accounts, four of
/// them or all of them where there are fewer.
pub proof fn lemma_genesis_council_is_first_endowed(
    invulnerables: Seq<(AccountId, AuraId)>,
    endowed: Seq<AccountId>,
    sudo_key: Option<AccountKeyView>,
    endow_sudo_key: bool,
    id: u32,
    alice: AccountId,
    bob: AccountId,
)
    ensures
        ({
            let g = spec_genesis(invulnerables, endowed, sudo_key, endow_sudo_key, id, alice, bob);
            &&& g.council_members.len() == if endowed.len() < 4 {
                endowed.len()
            } else {
                4
            }
            &&& forall|i: int|
                0 <= i < g.council_members.len() ==> #[trigger] g.council_members[i] == endowed[i]
        }),
{
}

/// Each initial collator is invulnerable and is registered for sessions
/// with its own account as validator id and its Aura key, in the given order.
pub proof fn lemma_genesis_collators_registered(
    invulnerables: Seq<(AccountId, AuraId)>,
    endowed: Seq<AccountId>,
    sudo_key: Option<AccountKeyView>,
    endow_sudo_key: bool,
    id: u32,
    alice: AccountId,
    bob: AccountId,
)
    ensures
        ({
            let g = spec_genesis(invulnerables, endowed, sudo_key, endow_sudo_key, id, alice, bob);
            &&& g.invulnerables.len() == invulnerables.len()
            &&& g.session_keys.len() == invulnerables.len()
            &&& forall|i: int|
                0 <= i < invulnerables.len() ==> {
                    &&& #[trigger] g.invulnerables[i] == invulnerables[i].0
                    &&& g.session_keys[i] == (
                        invulnerables[i].0,
                        invulnerables[i].0,
                        SessionKeys { aura: invulnerables[i].1 },
                    )
                }
        }),
{
}

/// Becoming a collator candidate costs sixteen existential deposits.
pub proof fn lemma_candidacy_bond(
    invulnerables: Seq<(AccountId, AuraId)>,
    endowed: Seq<AccountId>,
    sudo_key: Option<AccountKeyView>,
    endow_sudo_key: bool,
    id: u32,
    alice: AccountId,
    bob: AccountId,
)
    ensures
        spec_genesis(invulnerables, endowed, sudo_key, endow_sudo_key, id, alice, bob).candidacy_bond == 16
            * EXISTENTIAL_DEPOSIT,
{
}

/// The genesis creates two sufficient assets, 1 owned by `alice` and 2 owned
/// by `bob`, with a minimum balance of 100_000_000_000; their metadata names
/// them `asset-1`/`ALT1` and `asset-2`/`ALT2`, with ten decimals; and each
/// asset's owner holds 500_000_000_000 of that same asset, nobody else
/// holding any.
pub proof fn lemma_genesis_assets_held_by_owners(
    invulnerables: Seq<(AccountId, AuraId)>,
    endowed: Seq<AccountId>,
    sudo_key: Option<AccountKeyView>,
    endow_sudo_key: bool,
    id: u32,
    alice: AccountId,
    bob: AccountId,
)
    ensures
        ({
            let g = spec_genesis(invulnerables, endowed, sudo_key, endow_sudo_key, id, alice, bob);
            &&& g.assets.len() == 2
            &&& g.assets[0].id == 1 && g.assets[0].owner == alice
            &&& g.assets[1].id == 2 && g.assets[1].owner == bob
            &&& g.asset_metadata.len() == 2
            &&& g.asset_metadata[0].symbol == "ALT1"@ && g.asset_metadata[0].name == "asset-1"@
            &&& g.asset_metadata[1].symbol == "ALT2"@ && g.asset_metadata[1].name == "asset-2"@
            &&& g.asset_accounts.len() == 2
            &&& forall|i: int| 0 <= i < 2 ==> {
                &&& #[trigger] g.assets[i].is_sufficient
                &&& g.assets[i].min_balance == 100_000_000_000
                &&& g.asset_metadata[i].id == g.assets[i].id
                &&& g.asset_metadata[i].decimals == 10
                &&& g.asset_accounts[i].id == g.assets[i].id
                &&& g.asset_accounts[i].account == g.assets[i].owner
                &&& g.asset_accounts[i].balance == 500_000_000_000
            }
        }),
{
    let g = spec_genesis(invulnerables, endowed, sudo_key, endow_sudo_key, id, alice, bob);
    assert forall|i: int| 0 <= i < 2 implies {
        &&& #[trigger] g.assets[i].is_sufficient
        &&& g.assets[i].min_balance == 100_000_000_000
        &&& g.asset_metadata[i].id == g.assets[i].id
        &&& g.asset_metadata[i].decimals == 10
        &&& g.asset_accounts[i].id == g.assets[i].id
        &&& g.asset_accounts[i].account == g.assets[i].owner
        &&& g.asset_accounts[i].balance == 500_000_000_000
    } by {
        if i == 0 {
        } else {
            assert(i == 1);
        }
    }
}

} // verus!
