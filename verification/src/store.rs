//! Finding a payment in the node's table of payments, given as a list in
//! the order in which the node hands it out.

use crate::payment::{PaymentDetails, PaymentKind};
use vstd::prelude::*;

verus! {

/// What a payment is looked up by.
#[derive(Debug, Clone, Copy, PartialEq, Eq)]
pub enum Lookup {
    /// The node's id of the payment.
    ById([u8; 32]),
    /// The payment hash of a BOLT11 payment.
    ByBolt11Hash([u8; 32]),
}

/// The mathematical value of a [`Lookup`].
pub enum Query {
    ById(Seq<u8>),
    ByBolt11Hash(Seq<u8>),
}

impl View for Lookup {
    type V = Query;

    open spec fn view(&self) -> Query {
        match self {
            Lookup::ById(id) => Query::ById(id@),
            Lookup::ByBolt11Hash(hash) => Query::ByBolt11Hash(hash@),
        }
    }
}

/// Whether the record `details` is what `lookup` asks for.
pub open spec fn answers(details: PaymentDetails, lookup: Query) -> bool {
    match lookup {
        Query::ById(id) => details.id@ == id,
        Query::ByBolt11Hash(wanted) => match details.kind {
            PaymentKind::Bolt11 { hash, .. } => hash@ == wanted,
            _ => false,
        },
    }
}

/// The first record of `payments` that answers `lookup`, if there is one.
pub open spec fn first_match(payments: Seq<PaymentDetails>, lookup: Query) -> Option<
    PaymentDetails,
>
    decreases payments.len(),
{
    if payments.len() == 0 {
        None
    } else {
        match first_match(payments.drop_last(), lookup) {
            Some(found) => Some(found),
            None => if answers(payments.last(), lookup) {
                Some(payments.last())
            } else {
                None
            },
        }
    }
}

/// A match among the first `n` records is the match among all of them.
pub proof fn lemma_first_match_prefix(payments: Seq<PaymentDetails>, lookup: Query, n: int)
    requires
        0 <= n <= payments.len(),
        first_match(payments.take(n), lookup) is Some,
    ensures
        first_match(payments, lookup) == first_match(payments.take(n), lookup),
    decreases payments.len(),
{
    if n < payments.len() {
        assert(payments.drop_last().take(n) =~= payments.take(n));
        lemma_first_match_prefix(payments.drop_last(), lookup, n);
    } else {
        assert(payments.take(n) =~= payments);
    }
}

/// A match is a record of the list that answers the lookup, and no record
/// before it does; where there is no match, no record answers.
pub proof fn lemma_first_match_is_first(payments: Seq<PaymentDetails>, lookup: Query)
    ensures
        match first_match(payments, lookup) {
            Some(found) => exists|i: int|
                0 <= i < payments.len() && payments[i] == found && answers(found, lookup)
                    && forall|j: int| 0 <= j < i ==> !answers(#[trigger] payments[j], lookup),
            None => forall|j: int|
                0 <= j < payments.len() ==> !answers(#[trigger] payments[j], lookup),
        },
    decreases payments.len(),
{
    if payments.len() > 0 {
        let front = payments.drop_last();
        lemma_first_match_is_first(front, lookup);
        match first_match(front, lookup) {
            Some(found) => {
                let i = choose|i: int|
                    0 <= i < front.len() && front[i] == found && answers(found, lookup)
                        && forall|j: int| 0 <= j < i ==> !answers(#[trigger] front[j], lookup);
                assert(payments[i] == found);
                assert forall|j: int| 0 <= j < i implies !answers(
                    #[trigger] payments[j],
                    lookup,
                ) by {
                    assert(payments[j] == front[j]);
                }
            },
            None => {
                assert forall|j: int| 0 <= j < payments.len() - 1 implies !answers(
                    #[trigger] payments[j],
                    lookup,
                ) by {
                    assert(payments[j] == front[j]);
                }
                if answers(payments.last(), lookup) {
                    let i = payments.len() - 1;
                    assert(payments[i] == payments.last());
                }
            },
        }
    }
}

/// Whether two 32-byte values are the same.
pub fn same_bytes(a: &[u8; 32], b: &[u8; 32]) -> (same: bool)
    ensures
        same == (a@ == b@),
{
    let mut i: usize = 0;
    while i < 32
        invariant
            i <= 32,
            forall|j: int| 0 <= j < i ==> a@[j] == b@[j],
        decreases 32 - i,
    {
        if a[i] != b[i] {
            return false;
        }
        i = i + 1;
    }
    assert(a@ =~= b@);
    true
}

fn is_answer(details: &PaymentDetails, lookup: &Lookup) -> (r: bool)
    ensures
        r == answers(*details, lookup@),
{
    match lookup {
        Lookup::ById(id) => same_bytes(&details.id, id),
        Lookup::ByBolt11Hash(wanted) => match &details.kind {
            PaymentKind::Bolt11 { hash, .. } => same_bytes(hash, wanted),
            _ => false,
        },
    }
}

/// The first record of `payments` that answers `lookup`.
pub fn find_payment(payments: &Vec<PaymentDetails>, lookup: &Lookup) -> (found: Option<
    PaymentDetails,
>)
    ensures
        found == first_match(payments@, lookup@),
{
    let mut i: usize = 0;
    while i < payments.len()
        invariant
            i <= payments.len(),
            first_match(payments@.take(i as int), lookup@) is None,
        decreases payments.len() - i,
    {
        proof {
            assert(payments@.take(i + 1).drop_last() =~= payments@.take(i as int));
        }
        if is_answer(&payments[i], lookup) {
            proof {
                lemma_first_match_prefix(payments@, lookup@, i + 1);
            }
            return Some(payments[i]);
        }
        i = i + 1;
    }
    proof {
        assert(payments@.take(payments.len() as int) =~= payments@);
    }
    None
}

} // verus!
