//! Descriptions of BOLT11 invoices.

use cdk_common::lightning_invoice::{CreationError, Description};
use vstd::prelude::*;
use vstd::utf8::encode_utf8;

verus! {

/// The longest description an invoice can carry, in bytes.
pub const MAX_DESCRIPTION_BYTES: usize = 639;

/// The description of an invoice.
#[verifier::external_type_specification]
#[verifier::external_body]
pub struct ExDescription(Description);

/// Why an invoice cannot be made.
#[verifier::external_type_specification]
#[verifier::external_body]
pub struct ExCreationError(CreationError);

/// Whether a text can be the description of an invoice: its UTF-8 form is
/// no longer than [`MAX_DESCRIPTION_BYTES`].
pub open spec fn description_fits(text: Seq<char>) -> bool {
    encode_utf8(text).len() <= MAX_DESCRIPTION_BYTES
}

/// `Description::new`: accepts a text of at most 639 bytes and no other.
#[verifier::external_body]
pub(crate) fn new_description(text: String) -> (r: Result<Description, CreationError>)
    ensures
        r is Ok <==> description_fits(text@),
{
    Description::new(text)
}

} // verus!
