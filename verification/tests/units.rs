use cdk_ldk_node::units::{convert_amount, CurrencyUnit};

#[test]
fn satoshi_to_thousandths_multiplies() {
    assert_eq!(
        convert_amount(5, &CurrencyUnit::Sat, &CurrencyUnit::Msat),
        Some(5000)
    );
    assert_eq!(
        convert_amount(0, &CurrencyUnit::Sat, &CurrencyUnit::Msat),
        Some(0)
    );
}

#[test]
fn thousandths_to_satoshi_rounds_down() {
    assert_eq!(
        convert_amount(1999, &CurrencyUnit::Msat, &CurrencyUnit::Sat),
        Some(1)
    );
    assert_eq!(
        convert_amount(999, &CurrencyUnit::Msat, &CurrencyUnit::Sat),
        Some(0)
    );
    assert_eq!(
        convert_amount(u64::MAX, &CurrencyUnit::Msat, &CurrencyUnit::Sat),
        Some(u64::MAX / 1000)
    );
}

#[test]
fn same_unit_keeps_the_amount() {
    for unit in [
        CurrencyUnit::Sat,
        CurrencyUnit::Msat,
        CurrencyUnit::Usd,
        CurrencyUnit::Eur,
    ] {
        assert_eq!(convert_amount(42, &unit, &unit), Some(42));
    }
}

#[test]
fn conversion_at_the_edge_of_64_bits() {
    let largest = u64::MAX / 1000;
    assert_eq!(
        convert_amount(largest, &CurrencyUnit::Sat, &CurrencyUnit::Msat),
        Some(largest * 1000)
    );
    assert_eq!(
        convert_amount(largest + 1, &CurrencyUnit::Sat, &CurrencyUnit::Msat),
        None
    );
    assert_eq!(
        convert_amount(u64::MAX, &CurrencyUnit::Sat, &CurrencyUnit::Msat),
        None
    );
}

#[test]
fn other_pairs_are_refused() {
    assert_eq!(
        convert_amount(1, &CurrencyUnit::Usd, &CurrencyUnit::Sat),
        None
    );
    assert_eq!(
        convert_amount(1, &CurrencyUnit::Sat, &CurrencyUnit::Eur),
        None
    );
    assert_eq!(
        convert_amount(1, &CurrencyUnit::Auth, &CurrencyUnit::Auth),
        None
    );
    let custom = CurrencyUnit::Custom("points".to_string());
    assert_eq!(convert_amount(1, &custom, &custom), None);
    assert_eq!(convert_amount(1, &custom, &CurrencyUnit::Msat), None);
}

#[test]
fn clone_keeps_the_unit() {
    let custom = CurrencyUnit::Custom("points".to_string());
    assert_eq!(custom.clone(), custom);
    assert_eq!(CurrencyUnit::Msat.clone(), CurrencyUnit::Msat);
}
