//! Currency units and conversion between them.

use vstd::prelude::*;

verus! {

/// The unit in which an amount is counted.
#[derive(Debug, PartialEq, Eq)]
pub enum CurrencyUnit {
    /// Satoshi.
    Sat,
    /// Thousandth of a satoshi.
    Msat,
    /// US dollar.
    Usd,
    /// Euro.
    Eur,
    /// Authentication tokens.
    Auth,
    /// A unit known by its name only.
    Custom(String),
}

/// The mathematical value of a [`CurrencyUnit`].
pub enum UnitView {
    Sat,
    Msat,
    Usd,
    Eur,
    Auth,
    Custom(Seq<char>),
}

impl View for CurrencyUnit {
    type V = UnitView;

    open spec fn view(&self) -> UnitView {
        match self {
            CurrencyUnit::Sat => UnitView::Sat,
            CurrencyUnit::Msat => UnitView::Msat,
            CurrencyUnit::Usd => UnitView::Usd,
            CurrencyUnit::Eur => UnitView::Eur,
            CurrencyUnit::Auth => UnitView::Auth,
            CurrencyUnit::Custom(name) => UnitView::Custom(name@),
        }
    }
}

impl Clone for CurrencyUnit {
    fn clone(&self) -> (r: Self)
        ensures
            r@ == self@,
    {
        match self {
            CurrencyUnit::Sat => CurrencyUnit::Sat,
            CurrencyUnit::Msat => CurrencyUnit::Msat,
            CurrencyUnit::Usd => CurrencyUnit::Usd,
            CurrencyUnit::Eur => CurrencyUnit::Eur,
            CurrencyUnit::Auth => CurrencyUnit::Auth,
            CurrencyUnit::Custom(name) => CurrencyUnit::Custom(name.clone()),
        }
    }
}

/// Thousandths of a satoshi in one satoshi.
pub const MSAT_IN_SAT: u64 = 1000;

/// Whether an amount in `current` can be expressed in `target`: between
/// satoshi and its thousandth in both directions, and from satoshi, its
/// thousandth, dollar or euro to itself.
pub open spec fn convertible(current: UnitView, target: UnitView) -> bool {
    match (current, target) {
        (UnitView::Sat, UnitView::Sat) => true,
        (UnitView::Msat, UnitView::Msat) => true,
        (UnitView::Sat, UnitView::Msat) => true,
        (UnitView::Msat, UnitView::Sat) => true,
        (UnitView::Usd, UnitView::Usd) => true,
        (UnitView::Eur, UnitView::Eur) => true,
        _ => false,
    }
}

/// An amount of `current` expressed in `target`, rounded down, where the two
/// are convertible.
pub open spec fn converted(amount: int, current: UnitView, target: UnitView) -> int {
    match (current, target) {
        (UnitView::Sat, UnitView::Msat) => amount * 1000,
        (UnitView::Msat, UnitView::Sat) => amount / 1000,
        _ => amount,
    }
}

/// Whether `amount` of `current` can be expressed in `target` within 64 bits.
pub open spec fn conversion_fits(amount: u64, current: UnitView, target: UnitView) -> bool {
    convertible(current, target) && converted(amount as int, current, target) <= u64::MAX
}

/// The error of the amount arithmetic.
#[verifier::external_type_specification]
#[verifier::external_body]
pub struct ExAmountError(cdk_common::amount::Error);

/// `cdk_common::amount::to_unit`: converts between satoshi and its thousandth
/// by a factor of 1000, rounding down, keeps an amount whose unit stays
/// satoshi, its thousandth, dollar or euro, and refuses every other pair.
/// The product for satoshi to its thousandth must fit in 64 bits.
#[verifier::external_body]
pub(crate) fn to_unit(amount: u64, current: &CurrencyUnit, target: &CurrencyUnit) -> (r: Result<
    u64,
    cdk_common::amount::Error,
>)
    requires
        convertible(current@, target@) ==> conversion_fits(amount, current@, target@),
    ensures
        r is Ok <==> convertible(current@, target@),
        r is Ok ==> r->Ok_0 == converted(amount as int, current@, target@),
{
    let outside = |unit: &CurrencyUnit| match unit {
        CurrencyUnit::Sat => cdk_common::CurrencyUnit::Sat,
        CurrencyUnit::Msat => cdk_common::CurrencyUnit::Msat,
        CurrencyUnit::Usd => cdk_common::CurrencyUnit::Usd,
        CurrencyUnit::Eur => cdk_common::CurrencyUnit::Eur,
        CurrencyUnit::Auth => cdk_common::CurrencyUnit::Auth,
        CurrencyUnit::Custom(name) => cdk_common::CurrencyUnit::Custom(name.clone()),
    };
    cdk_common::amount::to_unit(amount, &outside(current), &outside(target)).map(u64::from)
}

/// Expresses `amount` of `current` in `target`.
///
/// Fails where the two units are not convertible, and where the result does
/// not fit in 64 bits.
pub fn convert_amount(amount: u64, current: &CurrencyUnit, target: &CurrencyUnit) -> (r: Option<u64>)
    ensures
        r is Some <==> conversion_fits(amount, current@, target@),
        r is Some ==> r->0 == converted(amount as int, current@, target@),
{
    let grows = match (current, target) {
        (CurrencyUnit::Sat, CurrencyUnit::Msat) => true,
        _ => false,
    };
    if grows && amount > u64::MAX / MSAT_IN_SAT {
        return None;
    }
    match to_unit(amount, current, target) {
        Ok(value) => Some(value),
        Err(_) => None,
    }
}

} // verus!
