//! What an operation asks of the record store, what the store answers, and how
//! an operation ends.
use crate::id::Id;
use crate::model::{
    Expense, ExpenseView, Member, MemberSummary, MemberSummaryView, MemberView, Organization,
    OrganizationView,
};
use vstd::prelude::*;

verus! {

/// The collections of the store. Nothing links one to another.
#[derive(Clone, Copy, Debug, PartialEq, Eq, Structural)]
pub enum Collection {
    Organizations,
    Members,
    Expenses,
}

/// One request to the store: a point lookup, an insert, the append of a summary
/// to the organization with a given id, or a delete by id.
#[derive(Clone, Debug, PartialEq, Eq)]
pub enum Request {
    Find { collection: Collection, id: Id },
    InsertOrganization(Organization),
    InsertMember(Member),
    InsertExpense(Expense),
    AppendMember { organization_id: Id, summary: MemberSummary },
    DeleteExpense(Id),
}

/// The value of a request.
pub enum RequestView {
    Find { collection: Collection, id: Id },
    InsertOrganization(OrganizationView),
    InsertMember(MemberView),
    InsertExpense(ExpenseView),
    AppendMember { organization_id: Id, summary: MemberSummaryView },
    DeleteExpense(Id),
}

impl View for Request {
    type V = RequestView;

    open spec fn view(&self) -> RequestView {
        match *self {
            Request::Find { collection, id } => RequestView::Find { collection, id },
            Request::InsertOrganization(o) => RequestView::InsertOrganization(o@),
            Request::InsertMember(m) => RequestView::InsertMember(m@),
            Request::InsertExpense(e) => RequestView::InsertExpense(e@),
            Request::AppendMember { organization_id, summary } => RequestView::AppendMember {
                organization_id,
                summary: summary@,
            },
            Request::DeleteExpense(id) => RequestView::DeleteExpense(id),
        }
    }
}

/// The store's answer to one request.
///
/// `Found` answers a lookup, `Inserted` an insert (with the id of the new
/// record), `Updated` an append (with the number of organizations matched) and
/// `Deleted` a delete (with the number of records removed). `Failed` is the
/// absence of an answer: the store could not be reached or refused the write.
#[derive(Clone, Copy, Debug, PartialEq, Eq)]
pub enum Reply {
    Found(bool),
    Inserted(Id),
    Updated(u64),
    Deleted(u64),
    Failed,
}

/// A reference that an operation checks before it writes.
#[derive(Clone, Copy, Debug, PartialEq, Eq)]
pub enum Reference {
    Organization,
    Payer,
    SplitMember(Id),
    Expense,
}

/// The step at which the store gave no answer.
#[derive(Clone, Copy, Debug, PartialEq, Eq)]
pub enum Fault {
    Lookup(Reference),
    Insert,
    Delete,
}

/// Why an operation failed. Each is final: nothing is retried.
#[derive(Clone, Copy, Debug, PartialEq, Eq)]
pub enum Failure {
    /// The identifier of what is referred to was malformed; the store was
    /// never asked.
    InvalidArgument(Reference),
    /// The store answered, and what was referred to is not there.
    NotFound(Reference),
    /// The store did not answer.
    Internal(Fault),
}

/// Where an operation stands after a reply: it has another request for the
/// store, or it is over.
#[derive(Debug)]
pub enum Progress<M, T> {
    Continue(M, Request),
    Finished(Result<T, Failure>),
}

/// How an operation that ends with an insert ends, by the store's reply: with
/// the id that the store gave the record, or, on any other reply, with the
/// insert unanswered.
pub open spec fn insert_result(reply: Reply) -> Result<Id, Failure> {
    match reply {
        Reply::Inserted(id) => Ok(id),
        _ => Err(Failure::Internal(Fault::Insert)),
    }
}

/// The value of a `Progress`: the state and the request by their values.
pub enum ProgressView<S, T> {
    Continue(S, RequestView),
    Finished(Result<T, Failure>),
}

} // verus!
