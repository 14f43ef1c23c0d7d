//! What stands in for foreign keys: before a record that refers to another is
//! written, the other is looked up, and the reply is read three ways. The
//! record is there; the record is not there; or the store did not say. The
//! last two are never taken for each other: a store that is down does not make
//! an organization disappear.
use crate::protocol::{Collection, Failure, Fault, Reference, Reply};
use vstd::prelude::*;

verus! {

/// The collection in which a reference is looked up: organizations among the
/// organizations, payers and split members among the members, expenses among
/// the expenses.
pub open spec fn collection_of(reference: Reference) -> Collection {
    match reference {
        Reference::Organization => Collection::Organizations,
        Reference::Payer => Collection::Members,
        Reference::SplitMember(_) => Collection::Members,
        Reference::Expense => Collection::Expenses,
    }
}

/// What the reply to the lookup of `reference` says of it: `Ok` if the store
/// found the record, `NotFound` if it answered that there is none, and
/// `Internal` on any other reply.
pub open spec fn confirmation(reference: Reference, reply: Reply) -> Result<(), Failure> {
    match reply {
        Reply::Found(true) => Ok(()),
        Reply::Found(false) => Err(Failure::NotFound(reference)),
        _ => Err(Failure::Internal(Fault::Lookup(reference))),
    }
}

/// The collection in which a reference is looked up.
pub fn collection(reference: Reference) -> (r: Collection)
    ensures
        r == collection_of(reference),
{
    match reference {
        Reference::Organization => Collection::Organizations,
        Reference::Payer => Collection::Members,
        Reference::SplitMember(_) => Collection::Members,
        Reference::Expense => Collection::Expenses,
    }
}

/// Reads the reply to the lookup of `reference`.
pub fn confirm(reference: Reference, reply: Reply) -> (r: Result<(), Failure>)
    ensures
        r == confirmation(reference, reply),
{
    match reply {
        Reply::Found(true) => Ok(()),
        Reply::Found(false) => Err(Failure::NotFound(reference)),
        _ => Err(Failure::Internal(Fault::Lookup(reference))),
    }
}

/// No answer is not absence: a reference is reported `NotFound` only when the
/// store answered the lookup, and answered that the record is not there; and
/// it is confirmed only when the store answered that it is.
pub proof fn law_no_answer_is_not_absence(reference: Reference, reply: Reply)
    ensures
        confirmation(reference, reply) is Ok <==> reply == Reply::Found(true),
        confirmation(reference, reply) matches Err(Failure::NotFound(_)) <==> reply
            == Reply::Found(false),
        !(reply is Found) ==> confirmation(reference, reply) == Err::<(), Failure>(
            Failure::Internal(Fault::Lookup(reference)),
        ),
{
}

} // verus!
