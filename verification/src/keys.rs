//! Account and session keys as plain bytes, their derivation from
//! development seeds, and the byte order by which accounts are sorted.

use vstd::prelude::*;
use vstd::relations::{total_ordering, sorted_by};

verus! {

broadcast use vstd::array::group_array_axioms;

/// An sr25519 public key, by its 32 bytes.
#[derive(Debug, Clone, Copy, PartialEq, Eq)]
pub struct Sr25519Public(pub [u8; 32]);

/// An account identifier (`AccountId32`), by its 32 bytes.
#[derive(Debug, Clone, Copy, PartialEq, Eq)]
pub struct AccountId(pub [u8; 32]);

/// A collator's Aura authority key: an sr25519 public key under the Aura
/// application tag, by its 32 bytes.
#[derive(Debug, Clone, Copy, PartialEq, Eq)]
pub struct AuraId(pub [u8; 32]);

/// The public key of the sr25519 pair that the secret URI `suri` describes,
/// or `None` where the URI is refused.
pub uninterp spec fn sr25519_public_from_suri(suri: Seq<char>) -> Option<[u8; 32]>;

/// Calls `sp_core::sr25519::Pair::from_string(suri, None)` and, where it
/// returns a pair, the pair's `public()` key. Claims only that the result is
/// the one named `sr25519_public_from_suri` for this URI: which URIs parse and
/// which key each gives is left to sp-core.
#[verifier::external_body]
fn sr25519_pair_public_from_string(suri: &str) -> (r: Option<[u8; 32]>)
    ensures
        r == sr25519_public_from_suri(suri@),
{
    match <sp_core::sr25519::Pair as sp_core::Pair>::from_string(suri, None) {
        Ok(pair) => Some(sp_core::Pair::public(&pair).0),
        Err(_) => None,
    }
}

/// The secret URI of a development seed: the seed behind a hard-derivation
/// prefix `//`, below the public development phrase.
pub open spec fn dev_suri(seed: Seq<char>) -> Seq<char> {
    "//"@ + seed
}

/// Whether the development seed `seed` yields a key pair.
pub open spec fn seed_derivable(seed: Seq<char>) -> bool {
    sr25519_public_from_suri(dev_suri(seed)) is Some
}

/// The public key derived from the development seed `seed`.
pub open spec fn spec_public_from_seed(seed: Seq<char>) -> Sr25519Public {
    Sr25519Public(sr25519_public_from_suri(dev_suri(seed)).unwrap())
}

/// The account of the development seed `seed`.
pub open spec fn spec_account_from_seed(seed: Seq<char>) -> AccountId {
    AccountId(spec_public_from_seed(seed).0)
}

/// The Aura key of the development seed `seed`.
pub open spec fn spec_aura_from_seed(seed: Seq<char>) -> AuraId {
    AuraId(spec_public_from_seed(seed).0)
}

fn dev_suri_string(seed: &str) -> (r: String)
    ensures
        r@ == dev_suri(seed@),
{
    let mut suri = "//".to_owned();
    suri.append(seed);
    suri
}

/// Generates a public key from a development seed: the key of the pair
/// described by `//seed`.
pub fn get_from_seed(seed: &str) -> (r: Sr25519Public)
    requires
        seed_derivable(seed@),
    ensures
        r == spec_public_from_seed(seed@),
{
    let suri = dev_suri_string(seed);
    Sr25519Public(sr25519_pair_public_from_string(suri.as_str()).unwrap())
}

/// Like `get_from_seed`, but answers `None` where the seed yields no key pair.
pub fn try_get_from_seed(seed: &str) -> (r: Option<Sr25519Public>)
    ensures
        r is Some <==> seed_derivable(seed@),
        r matches Some(k) ==> k == spec_public_from_seed(seed@),
{
    let suri = dev_suri_string(seed);
    if sr25519_pair_public_from_string(suri.as_str()).is_some() {
        Some(get_from_seed(seed))
    } else {
        None
    }
}

/// Generates the collator (Aura) key of a development seed.
pub fn get_collator_keys_from_seed(seed: &str) -> (r: AuraId)
    requires
        seed_derivable(seed@),
    ensures
        r == spec_aura_from_seed(seed@),
{
    AuraId(get_from_seed(seed).0)
}

/// Generates the account of a development seed: the account of an sr25519
/// signer is its public key.
pub fn get_account_id_from_seed(seed: &str) -> (r: AccountId)
    requires
        seed_derivable(seed@),
    ensures
        r == spec_account_from_seed(seed@),
{
    AccountId(get_from_seed(seed).0)
}

/// The account and the collator (Aura) key of a development seed are the
/// seed's sr25519 public key, under two names.
pub proof fn lemma_seed_account_matches_aura_key(seed: Seq<char>)
    ensures
        spec_account_from_seed(seed).0 == spec_public_from_seed(seed).0,
        spec_aura_from_seed(seed).0 == spec_public_from_seed(seed).0,
{
}

/// `get_collator_keys_from_seed`, or `None` where the seed yields no key pair.
pub fn try_get_collator_keys_from_seed(seed: &str) -> (r: Option<AuraId>)
    ensures
        r is Some <==> seed_derivable(seed@),
        r matches Some(k) ==> k == spec_aura_from_seed(seed@),
{
    if try_get_from_seed(seed).is_some() {
        Some(get_collator_keys_from_seed(seed))
    } else {
        None
    }
}

/// `get_account_id_from_seed`, or `None` where the seed yields no key pair.
pub fn try_get_account_id_from_seed(seed: &str) -> (r: Option<AccountId>)
    ensures
        r is Some <==> seed_derivable(seed@),
        r matches Some(a) ==> a == spec_account_from_seed(seed@),
{
    if try_get_from_seed(seed).is_some() {
        Some(get_account_id_from_seed(seed))
    } else {
        None
    }
}

// ---------------------------------------------------------------------------
// Byte order of accounts
// ---------------------------------------------------------------------------

/// Lexicographic order of byte strings, a proper prefix coming first.
pub open spec fn bytes_le(a: Seq<u8>, b: Seq<u8>) -> bool
    decreases a.len(),
{
    if a.len() == 0 {
        true
    } else if b.len() == 0 {
        false
    } else if a[0] != b[0] {
        a[0] < b[0]
    } else {
        bytes_le(a.drop_first(), b.drop_first())
    }
}

/// The order of accounts: that of their bytes.
pub open spec fn account_le(a: AccountId, b: AccountId) -> bool {
    bytes_le(a.0@, b.0@)
}

/// `account_le` as a relation.
pub open spec fn account_order() -> spec_fn(AccountId, AccountId) -> bool {
    |a: AccountId, b: AccountId| account_le(a, b)
}

proof fn lemma_bytes_le_reflexive(a: Seq<u8>)
    ensures
        bytes_le(a, a),
    decreases a.len(),
{
    if a.len() > 0 {
        lemma_bytes_le_reflexive(a.drop_first());
    }
}

proof fn lemma_bytes_le_antisymmetric(a: Seq<u8>, b: Seq<u8>)
    requires
        bytes_le(a, b),
        bytes_le(b, a),
    ensures
        a =~= b,
    decreases a.len(),
{
    if a.len() > 0 && b.len() > 0 {
        lemma_bytes_le_antisymmetric(a.drop_first(), b.drop_first());
        assert(a =~= seq![a[0]] + a.drop_first());
        assert(b =~= seq![b[0]] + b.drop_first());
    }
}

proof fn lemma_bytes_le_transitive(a: Seq<u8>, b: Seq<u8>, c: Seq<u8>)
    requires
        bytes_le(a, b),
        bytes_le(b, c),
    ensures
        bytes_le(a, c),
    decreases a.len(),
{
    if a.len() > 0 && b.len() > 0 && c.len() > 0 {
        if a[0] == b[0] && b[0] == c[0] {
            lemma_bytes_le_transitive(a.drop_first(), b.drop_first(), c.drop_first());
        }
    }
}

proof fn lemma_bytes_le_total(a: Seq<u8>, b: Seq<u8>)
    ensures
        bytes_le(a, b) || bytes_le(b, a),
    decreases a.len(),
{
    if a.len() > 0 && b.len() > 0 && a[0] == b[0] {
        lemma_bytes_le_total(a.drop_first(), b.drop_first());
    }
}

/// Accounts are totally ordered by their bytes.
pub proof fn lemma_account_order_total()
    ensures
        total_ordering(account_order()),
{
    assert forall|x: AccountId| #[trigger] account_order()(x, x) by {
        lemma_bytes_le_reflexive(x.0@);
    }
    assert forall|x: AccountId, y: AccountId|
        #[trigger] account_order()(x, y) && #[trigger] account_order()(y, x) implies x == y by {
        lemma_bytes_le_antisymmetric(x.0@, y.0@);
        assert(x.0 =~= y.0);
    }
    assert forall|x: AccountId, y: AccountId, z: AccountId|
        #[trigger] account_order()(x, y) && #[trigger] account_order()(y, z) implies account_order()(
        x,
        z,
    ) by {
        lemma_bytes_le_transitive(x.0@, y.0@, z.0@);
    }
    assert forall|x: AccountId, y: AccountId|
        #[trigger] account_order()(x, y) || #[trigger] account_order()(y, x) by {
        lemma_bytes_le_total(x.0@, y.0@);
    }
}

proof fn lemma_bytes_le_step(a: Seq<u8>, b: Seq<u8>, i: int)
    requires
        0 <= i < a.len(),
        a.len() == b.len(),
        a[i] == b[i],
    ensures
        bytes_le(a.skip(i), b.skip(i)) == bytes_le(a.skip(i + 1), b.skip(i + 1)),
{
    assert(a.skip(i).drop_first() =~= a.skip(i + 1));
    assert(b.skip(i).drop_first() =~= b.skip(i + 1));
}

/// Compares two accounts by their bytes.
pub fn account_le_exec(a: &AccountId, b: &AccountId) -> (r: bool)
    ensures
        r == account_le(*a, *b),
{
    let mut i: usize = 0;
    assert(a.0@.skip(0) =~= a.0@);
    assert(b.0@.skip(0) =~= b.0@);
    while i < 32
        invariant
            0 <= i <= 32,
            a.0@.len() == 32,
            b.0@.len() == 32,
            bytes_le(a.0@, b.0@) == bytes_le(a.0@.skip(i as int), b.0@.skip(i as int)),
        decreases 32 - i,
    {
        if a.0[i] != b.0[i] {
            return a.0[i] < b.0[i];
        }
        proof {
            lemma_bytes_le_step(a.0@, b.0@, i as int);
        }
        i = i + 1;
    }
    true
}

/// The accounts of `accounts`, sorted by their bytes.
pub open spec fn spec_sorted_accounts(accounts: Seq<AccountId>) -> Seq<AccountId> {
    accounts.sort_by(account_order())
}

/// Sorts accounts by their bytes.
pub fn sort_accounts(accounts: Vec<AccountId>) -> (r: Vec<AccountId>)
    ensures
        r@ == spec_sorted_accounts(accounts@),
        sorted_by(r@, account_order()),
        r@.to_multiset() == accounts@.to_multiset(),
{
    proof {
        lemma_account_order_total();
    }
    let mut res: Vec<AccountId> = Vec::new();
    let n = accounts.len();
    let mut i: usize = 0;
    assert(res@ =~= accounts@.take(0));
    while i < n
        invariant
            n == accounts@.len(),
            0 <= i <= n,
            total_ordering(account_order()),
            sorted_by(res@, account_order()),
            res@.to_multiset() == accounts@.take(i as int).to_multiset(),
        decreases n - i,
    {
        let x = accounts[i];
        let mut j: usize = 0;
        while j < res.len() && account_le_exec(&res[j], &x)
            invariant
                0 <= j <= res@.len(),
                forall|k: int| 0 <= k < j ==> account_le(#[trigger] res@[k], x),
            decreases res@.len() - j,
        {
            j = j + 1;
        }
        proof {
            if j < res@.len() {
                assert(!account_order()(res@[j as int], x));
                assert(account_order()(x, res@[j as int]) || account_order()(res@[j as int], x));
            }
        }
        let ghost old_res = res@;
        res.insert(j, x);
        proof {
            assert forall|p: int, q: int| 0 <= p < q < res@.len() implies #[trigger] account_order()(
                res@[p],
                res@[q],
            ) by {
                if q < j {
                    assert(res@[p] == old_res[p] && res@[q] == old_res[q]);
                } else if q == j {
                    assert(res@[p] == old_res[p]);
                } else if p == j {
                    assert(res@[q] == old_res[q - 1]);
                    if q - 1 > j {
                        assert(account_order()(old_res[j as int], old_res[q - 1]));
                    }
                } else if p < j {
                    assert(res@[p] == old_res[p] && res@[q] == old_res[q - 1]);
                } else {
                    assert(res@[p] == old_res[p - 1] && res@[q] == old_res[q - 1]);
                }
            }
            assert(accounts@.take(i + 1) =~= accounts@.take(i as int).push(x));
            assert(accounts@.take(i as int).push(x) =~= accounts@.take(i as int).insert(
                i as int,
                x,
            ));
            vstd::seq_lib::to_multiset_insert(old_res, j as int, x);
            vstd::seq_lib::to_multiset_insert(accounts@.take(i as int), i as int, x);
        }
        i = i + 1;
    }
    proof {
        assert(accounts@.take(n as int) =~= accounts@);
        accounts@.lemma_sort_by_ensures(account_order());
        vstd::seq_lib::lemma_sorted_unique(res@, accounts@.sort_by(account_order()), account_order());
    }
    res
}

/// Sorting forgets the order in which the accounts came: two lists holding
/// the same accounts, each as often, sort to the same list.
pub proof fn lemma_sorted_accounts_order_independent(a: Seq<AccountId>, b: Seq<AccountId>)
    requires
        a.to_multiset() == b.to_multiset(),
    ensures
        spec_sorted_accounts(a) == spec_sorted_accounts(b),
{
    lemma_account_order_total();
    a.lemma_sort_by_ensures(account_order());
    b.lemma_sort_by_ensures(account_order());
    vstd::seq_lib::lemma_sorted_unique(
        a.sort_by(account_order()),
        b.sort_by(account_order()),
        account_order(),
    );
}

} // verus!
