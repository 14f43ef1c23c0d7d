//! Deleting an expense by id. Nothing else is touched: no organization and no
//! member changes when an expense goes.
use crate::id::{is_hex_id, parsed, Id};
use crate::protocol::{
    Failure, Fault, Progress, ProgressView, Reference, Reply, Request, RequestView,
};
use vstd::prelude::*;

verus! {

/// How a deletion begins. A malformed id ends it at once with
/// `InvalidArgument`, and the store is not asked; otherwise the delete of the
/// expense with that id goes out.
pub open spec fn deletion_start(id: Seq<char>) -> ProgressView<Id, ()> {
    if is_hex_id(id) {
        ProgressView::Continue(parsed(id), RequestView::DeleteExpense(parsed(id)))
    } else {
        ProgressView::Finished(Err(Failure::InvalidArgument(Reference::Expense)))
    }
}

/// How a deletion ends, by the store's reply: it succeeded if exactly one
/// record was removed; the expense was not there if the store removed another
/// number; and the store gave no answer otherwise.
pub open spec fn deletion_result(reply: Reply) -> Result<(), Failure> {
    match reply {
        Reply::Deleted(count) => if count == 1 {
            Ok(())
        } else {
            Err(Failure::NotFound(Reference::Expense))
        },
        _ => Err(Failure::Internal(Fault::Delete)),
    }
}

/// The deletion of one expense, while its request is out.
#[derive(Debug)]
pub struct ExpenseDeletion {
    id: Id,
}

impl View for ExpenseDeletion {
    type V = Id;

    closed spec fn view(&self) -> Id {
        self.id
    }
}

/// The value of a deletion's beginning.
pub open spec fn progress_view(p: Progress<ExpenseDeletion, ()>) -> ProgressView<Id, ()> {
    match p {
        Progress::Continue(m, r) => ProgressView::Continue(m@, r@),
        Progress::Finished(r) => ProgressView::Finished(r),
    }
}

impl ExpenseDeletion {
    /// Begins the deletion of the expense whose id `id` spells.
    pub fn start(id: &str) -> (p: Progress<ExpenseDeletion, ()>)
        ensures
            progress_view(p) == deletion_start(id@),
    {
        match Id::parse(id) {
            None => Progress::Finished(Err(Failure::InvalidArgument(Reference::Expense))),
            Some(id) => Progress::Continue(ExpenseDeletion { id }, Request::DeleteExpense(id)),
        }
    }

    /// Takes the store's reply to the delete, and ends the deletion.
    pub fn finish(self, reply: Reply) -> (r: Result<(), Failure>)
        ensures
            r == deletion_result(reply),
    {
        match reply {
            Reply::Deleted(count) => {
                if count == 1 {
                    Ok(())
                } else {
                    Err(Failure::NotFound(Reference::Expense))
                }
            },
            _ => Err(Failure::Internal(Fault::Delete)),
        }
    }
}

/// A malformed id is refused before the store is asked: whatever the store
/// holds or would reply, the result is `InvalidArgument`, never `NotFound` and
/// never `Internal`.
pub proof fn law_malformed_id_is_refused(id: Seq<char>)
    requires
        !is_hex_id(id),
    ensures
        deletion_start(id) == ProgressView::<Id, ()>::Finished(
            Err(Failure::InvalidArgument(Reference::Expense)),
        ),
{
}

/// A well-formed id is never refused as malformed: the delete goes out, and
/// whatever the reply, the result is not `InvalidArgument`.
pub proof fn law_wellformed_id_reaches_store(id: Seq<char>, reply: Reply)
    requires
        is_hex_id(id),
    ensures
        deletion_start(id) is Continue,
        !(deletion_result(reply) matches Err(Failure::InvalidArgument(_))),
{
}

} // verus!
