//! Currency units of the runtime and the storage deposit formula.

use vstd::prelude::*;

verus! {

/// The balance type of the runtime.
pub type Balance = u128;

pub const MICROUNIT: Balance = 1_000_000;

pub const MILLIUNIT: Balance = 1_000 * MICROUNIT;

pub const UNIT: Balance = 1_000 * MILLIUNIT;

/// The minimum balance an account must hold to exist.
pub const EXISTENTIAL_DEPOSIT: Balance = MILLIUNIT;

/// The deposit owed for storing `items` items taking `bytes` bytes:
/// `(items * 20 UNIT + bytes * 100 MICROUNIT) / 100`.
pub open spec fn spec_deposit(items: int, bytes: int) -> int {
    (items * 20 * UNIT + bytes * 100 * MICROUNIT) / 100
}

/// Deposit for `items` storage items occupying `bytes` bytes.
pub fn deposit(items: u32, bytes: u32) -> (r: Balance)
    ensures
        r == spec_deposit(items as int, bytes as int),
{
    (items as Balance * 20 * UNIT + (bytes as Balance) * 100 * MICROUNIT) / 100
}

/// The deposit has no rounding: each item costs a fifth of a `UNIT` and each
/// byte one `MICROUNIT`.
pub proof fn lemma_deposit_exact(items: nat, bytes: nat)
    ensures
        spec_deposit(items as int, bytes as int) == items * (UNIT / 5) + bytes * MICROUNIT,
{
    assert(items * 20 * UNIT + bytes * 100 * MICROUNIT == 100 * (items * (UNIT / 5) + bytes
        * MICROUNIT)) by (nonlinear_arith);
}

/// The deposit never decreases when more items or more bytes are stored.
pub proof fn lemma_deposit_monotonic(items1: nat, bytes1: nat, items2: nat, bytes2: nat)
    requires
        items1 <= items2,
        bytes1 <= bytes2,
    ensures
        spec_deposit(items1 as int, bytes1 as int) <= spec_deposit(items2 as int, bytes2 as int),
{
    lemma_deposit_exact(items1, bytes1);
    lemma_deposit_exact(items2, bytes2);
    assert(items1 * (UNIT / 5) <= items2 * (UNIT / 5)) by (nonlinear_arith)
        requires items1 <= items2;
    assert(bytes1 * MICROUNIT <= bytes2 * MICROUNIT) by (nonlinear_arith)
        requires bytes1 <= bytes2;
}

/// Storing two batches together costs the same as storing them apart.
pub proof fn lemma_deposit_additive(items1: nat, bytes1: nat, items2: nat, bytes2: nat)
    ensures
        spec_deposit(items1 + items2 as int, bytes1 + bytes2 as int) == spec_deposit(items1 as int, bytes1 as int)
            + spec_deposit(items2 as int, bytes2 as int),
{
    lemma_deposit_exact(items1, bytes1);
    lemma_deposit_exact(items2, bytes2);
    lemma_deposit_exact(items1 + items2, bytes1 + bytes2);
    assert((items1 + items2) * (UNIT / 5) == items1 * (UNIT / 5) + items2 * (UNIT / 5))
        by (nonlinear_arith);
    assert((bytes1 + bytes2) * MICROUNIT == bytes1 * MICROUNIT + bytes2 * MICROUNIT)
        by (nonlinear_arith);
}

} // verus!
