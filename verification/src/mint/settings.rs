//! What the backend can do.

use crate::units::CurrencyUnit;
use vstd::prelude::*;

verus! {

/// What the backend can do.
#[derive(Debug, PartialEq, Eq)]
pub struct Bolt11Settings {
    /// Whether a payment can be split over several paths.
    pub mpp: bool,
    /// The unit in which the backend counts.
    pub unit: CurrencyUnit,
    /// Whether an invoice can carry a description.
    pub invoice_description: bool,
    /// Whether an invoice without an amount can be paid.
    pub amountless: bool,
    /// Whether offers can be made and paid.
    pub bolt12: bool,
}

/// The settings of this backend: it counts in satoshi, its invoices carry
/// a description, it makes and pays offers, and it neither splits payments
/// nor pays invoices without an amount.
pub fn get_settings() -> (settings: Bolt11Settings)
    ensures
        !settings.mpp,
        settings.unit == CurrencyUnit::Sat,
        settings.invoice_description,
        !settings.amountless,
        settings.bolt12,
{
    Bolt11Settings {
        mpp: false,
        unit: CurrencyUnit::Sat,
        invoice_description: true,
        amountless: false,
        bolt12: true,
    }
}

} // verus!
