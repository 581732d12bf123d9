use parachain_node::common::{
    _deposit, weight_per_gas, CENTS, DOLLARS, GAS_PER_SECOND, GIGAWEI, KILOWEI, MEGAWEI,
    MILLICENTS, WEI,
};
use parachain_node::currency::{deposit, EXISTENTIAL_DEPOSIT, MICROUNIT, MILLIUNIT, UNIT};

#[test]
fn units_scale_by_thousands() {
    assert_eq!(MICROUNIT, 1_000_000);
    assert_eq!(MILLIUNIT, 1_000_000_000);
    assert_eq!(UNIT, 1_000_000_000_000);
    assert_eq!(EXISTENTIAL_DEPOSIT, MILLIUNIT);
}

#[test]
fn deposit_prices_items_and_bytes() {
    assert_eq!(deposit(0, 0), 0);
    assert_eq!(deposit(1, 0), 200_000_000_000);
    assert_eq!(deposit(0, 1), 1_000_000);
    assert_eq!(deposit(2, 100), 400_000_000_000 + 100_000_000);
    assert_eq!(deposit(u32::MAX, u32::MAX), u32::MAX as u128 * 200_000_000_000 + u32::MAX as u128 * 1_000_000);
}

#[test]
fn deposit_is_additive_and_monotonic() {
    assert_eq!(deposit(3, 7), deposit(1, 2) + deposit(2, 5));
    assert!(deposit(3, 7) <= deposit(3, 8));
    assert!(deposit(3, 7) <= deposit(4, 7));
}

#[test]
fn cent_denominations() {
    assert_eq!(MILLICENTS, 1_000_000_000);
    assert_eq!(CENTS, 1_000_000_000_000);
    assert_eq!(DOLLARS, 100_000_000_000_000);
    assert_eq!(WEI, 1);
    assert_eq!(KILOWEI, 1_000);
    assert_eq!(MEGAWEI, 1_000_000);
    assert_eq!(GIGAWEI, 1_000_000_000);
}

#[test]
fn common_deposit_in_cents() {
    assert_eq!(_deposit(0, 0), 0);
    assert_eq!(_deposit(1, 0), 15 * CENTS);
    assert_eq!(_deposit(0, 1), 6 * CENTS);
    assert_eq!(_deposit(2, 3), 48 * CENTS);
    assert!(_deposit(2, 3) <= _deposit(2, 4));
}

#[test]
fn weight_per_gas_ratio() {
    assert_eq!(GAS_PER_SECOND, 160_000_000);
    assert_eq!(weight_per_gas(), 6250);
}
