//! Shared runtime constants: balance denominations, the shared deposit
//! formula and the weight-per-gas ratio.

use vstd::prelude::*;
use crate::currency::Balance;

verus! {

pub const MILLICENTS: Balance = 1_000_000_000;

/// Assumed to be worth about a cent.
pub const CENTS: Balance = 1_000 * MILLICENTS;

pub const DOLLARS: Balance = 100 * CENTS;

pub const WEI: Balance = 1;

pub const KILOWEI: Balance = 1_000 * WEI;

pub const MEGAWEI: Balance = 1_000 * KILOWEI;

pub const GIGAWEI: Balance = 1_000 * MEGAWEI;

/// Current approximation of the gas per second consumption.
pub const GAS_PER_SECOND: u64 = 160_000_000;

/// `items * 15 CENTS + bytes * 6 CENTS`.
pub open spec fn spec_common_deposit(items: int, bytes: int) -> int {
    items * 15 * CENTS + bytes * 6 * CENTS
}

/// Deposit for `items` storage items occupying `bytes` bytes, priced in cents.
pub fn _deposit(items: u32, bytes: u32) -> (r: Balance)
    ensures
        r == spec_common_deposit(items as int, bytes as int),
        r == items as int * 15_000_000_000_000 + bytes as int * 6_000_000_000_000,
{
    items as Balance * 15 * CENTS + (bytes as Balance) * 6 * CENTS
}

/// The deposit never decreases when more items or more bytes are stored.
pub proof fn lemma_common_deposit_monotonic(items1: nat, bytes1: nat, items2: nat, bytes2: nat)
    requires
        items1 <= items2,
        bytes1 <= bytes2,
    ensures
        spec_common_deposit(items1 as int, bytes1 as int) <= spec_common_deposit(
            items2 as int,
            bytes2 as int,
        ),
{
    assert(items1 * 15 * CENTS <= items2 * 15 * CENTS) by (nonlinear_arith)
        requires items1 <= items2;
    assert(bytes1 * 6 * CENTS <= bytes2 * 6 * CENTS) by (nonlinear_arith)
        requires bytes1 <= bytes2;
}

/// A deposit is 15 cents per item plus 6 cents per byte, with nothing added
/// and no cap, whatever the numbers of items and bytes.
pub proof fn lemma_common_deposit_exact(items: nat, bytes: nat)
    ensures
        spec_common_deposit(items as int, bytes as int) == 15 * 1_000_000_000_000 * items + 6
            * 1_000_000_000_000 * bytes,
        spec_common_deposit(0, 0) == 0,
{
    assert(CENTS == 1_000_000_000_000);
    assert(items * 15 * CENTS == 15 * 1_000_000_000_000 * items) by (nonlinear_arith)
        requires CENTS == 1_000_000_000_000;
    assert(bytes * 6 * CENTS == 6 * 1_000_000_000_000 * bytes) by (nonlinear_arith)
        requires CENTS == 1_000_000_000_000;
}

/// Storing two lots together costs what storing each costs: the deposit
/// adds over items and over bytes.
pub proof fn lemma_common_deposit_additive(items1: nat, bytes1: nat, items2: nat, bytes2: nat)
    ensures
        spec_common_deposit((items1 + items2) as int, (bytes1 + bytes2) as int) == spec_common_deposit(
            items1 as int,
            bytes1 as int,
        ) + spec_common_deposit(items2 as int, bytes2 as int),
{
    assert((items1 + items2) * 15 * CENTS == items1 * 15 * CENTS + items2 * 15 * CENTS)
        by (nonlinear_arith);
    assert((bytes1 + bytes2) * 6 * CENTS == bytes1 * 6 * CENTS + bytes2 * 6 * CENTS)
        by (nonlinear_arith);
}

/// Reads `sp_weights::constants::WEIGHT_REF_TIME_PER_SECOND`, the amount of
/// reference time that makes up one second of weight. sp-weights defines it
/// as `1_000_000_000_000`; this item claims that value.
#[verifier::external_body]
fn weight_ref_time_per_second() -> (r: u64)
    ensures
        r == 1_000_000_000_000u64,
{
    sp_weights::constants::WEIGHT_REF_TIME_PER_SECOND
}

/// Approximate ratio of the amount of weight per gas: the reference time of
/// one second of weight divided by `GAS_PER_SECOND`.
pub fn weight_per_gas() -> (r: u64)
    ensures
        r == 1_000_000_000_000u64 / GAS_PER_SECOND,
        r == 6250,
{
    weight_ref_time_per_second() / GAS_PER_SECOND
}

} // verus!
