//! Writing an expense: every reference is checked, in a fixed order, before the
//! one insert. Nothing is written until all checks have passed, so a failed
//! write leaves nothing behind.
use crate::id::Id;
use crate::integrity::{collection, collection_of, confirm, confirmation};
use crate::model::{Expense, ExpenseView};
use crate::protocol::{
    insert_result, Failure, Fault, Progress, ProgressView, Reference, Reply, Request, RequestView,
};
use vstd::prelude::*;

verus! {

/// How many references an expense holds: its organization, its payer, and each
/// member it is split between.
pub open spec fn reference_count(e: ExpenseView) -> nat {
    2 + e.split_between.len()
}

/// The `k`-th reference of an expense: the organization, then the payer, then
/// the split members in list order.
pub open spec fn reference_at(e: ExpenseView, k: int) -> Reference {
    if k == 0 {
        Reference::Organization
    } else if k == 1 {
        Reference::Payer
    } else {
        Reference::SplitMember(e.split_between[k - 2])
    }
}

/// The id that the `k`-th reference of an expense refers to.
pub open spec fn referred_at(e: ExpenseView, k: int) -> Id {
    if k == 0 {
        e.organization_id
    } else if k == 1 {
        e.paid_by
    } else {
        e.split_between[k - 2]
    }
}

/// The `k`-th request of a write: the lookup of the `k`-th reference, and after
/// the last of them the insert.
pub open spec fn request_at(e: ExpenseView, k: nat) -> RequestView {
    if k < reference_count(e) {
        RequestView::Find {
            collection: collection_of(reference_at(e, k as int)),
            id: referred_at(e, k as int),
        }
    } else {
        RequestView::InsertExpense(e)
    }
}

/// The state of a write: `confirmed` references are known to exist and the
/// lookup of the next one is out, or all are and the insert is out.
pub enum WriterView {
    Checking { expense: ExpenseView, confirmed: nat },
    Inserting,
}

/// The state of a write of `e` once `k` references are confirmed.
pub open spec fn writer_at(e: ExpenseView, k: nat) -> WriterView {
    if k < reference_count(e) {
        WriterView::Checking { expense: e, confirmed: k }
    } else {
        WriterView::Inserting
    }
}

/// What a write does with the reply to the request it has out.
///
/// A lookup that finds its record confirms the reference and sends the next
/// request. One that finds none ends the write with `NotFound` of that very
/// reference. Anything else in answer to a lookup is no answer, and ends it
/// with `Internal`: a store that could not say is never taken for a record that
/// is not there. The insert ends the write either way.
pub open spec fn writer_step(w: WriterView, reply: Reply) -> ProgressView<WriterView, Id> {
    match w {
        WriterView::Checking { expense, confirmed } => match confirmation(
            reference_at(expense, confirmed as int),
            reply,
        ) {
            Ok(_) => ProgressView::Continue(
                writer_at(expense, confirmed + 1),
                request_at(expense, confirmed + 1),
            ),
            Err(failure) => ProgressView::Finished(Err(failure)),
        },
        WriterView::Inserting => ProgressView::Finished(insert_result(reply)),
    }
}

/// Where a write of `e` stands after the replies `replies`, one per request, in
/// order. Replies that come after the write has ended are not looked at.
pub open spec fn writer_run(e: ExpenseView, replies: Seq<Reply>) -> ProgressView<WriterView, Id>
    decreases replies.len(),
{
    if replies.len() == 0 {
        ProgressView::Continue(writer_at(e, 0), request_at(e, 0))
    } else {
        match writer_run(e, replies.drop_last()) {
            ProgressView::Continue(w, _) => writer_step(w, replies.last()),
            ProgressView::Finished(r) => ProgressView::Finished(r),
        }
    }
}

#[derive(Debug)]
enum State {
    Organization(Expense),
    Payer(Expense),
    Split(Expense, usize),
    Insert,
}

/// A write of one expense, between two requests.
#[derive(Debug)]
pub struct ExpenseWriter {
    state: State,
}

impl View for ExpenseWriter {
    type V = WriterView;

    closed spec fn view(&self) -> WriterView {
        match self.state {
            State::Organization(e) => WriterView::Checking { expense: e@, confirmed: 0 },
            State::Payer(e) => WriterView::Checking { expense: e@, confirmed: 1 },
            State::Split(e, i) => WriterView::Checking { expense: e@, confirmed: 2 + i as nat },
            State::Insert => WriterView::Inserting,
        }
    }
}

/// The value of a step's result.
pub open spec fn progress_view(p: Progress<ExpenseWriter, Id>) -> ProgressView<WriterView, Id> {
    match p {
        Progress::Continue(m, r) => ProgressView::Continue(m@, r@),
        Progress::Finished(r) => ProgressView::Finished(r),
    }
}

impl ExpenseWriter {
    #[verifier::type_invariant]
    spec fn inv(self) -> bool {
        self.state matches State::Split(e, i) ==> i < e.split_between.len()
    }

    /// Begins the write of `expense`: nothing is confirmed, and the first
    /// request is the lookup of its organization.
    pub fn start(expense: Expense) -> (r: (ExpenseWriter, Request))
        ensures
            r.0@ == writer_at(expense@, 0),
            r.1@ == request_at(expense@, 0),
    {
        let request = Request::Find {
            collection: collection(Reference::Organization),
            id: expense.organization_id,
        };
        (ExpenseWriter { state: State::Organization(expense) }, request)
    }

    /// Goes on once the organization, the payer and the first `next` members
    /// of the split list are confirmed: to the next member, or to the insert.
    fn proceed(expense: Expense, next: usize) -> (p: Progress<ExpenseWriter, Id>)
        requires
            next <= expense.split_between.len(),
        ensures
            progress_view(p) == ProgressView::<WriterView, Id>::Continue(
                writer_at(expense@, 2 + next as nat),
                request_at(expense@, 2 + next as nat),
            ),
    {
        if next < expense.split_between.len() {
            let id = expense.split_between[next];
            let request = Request::Find { collection: collection(Reference::SplitMember(id)), id };
            Progress::Continue(ExpenseWriter { state: State::Split(expense, next) }, request)
        } else {
            Progress::Continue(
                ExpenseWriter { state: State::Insert },
                Request::InsertExpense(expense),
            )
        }
    }

    /// Takes the reply to the request that is out.
    pub fn advance(self, reply: Reply) -> (p: Progress<ExpenseWriter, Id>)
        ensures
            progress_view(p) == writer_step(self@, reply),
    {
        proof {
            use_type_invariant(&self);
        }
        match self.state {
            State::Organization(expense) => match confirm(Reference::Organization, reply) {
                Ok(_) => {
                    let request = Request::Find {
                        collection: collection(Reference::Payer),
                        id: expense.paid_by,
                    };
                    Progress::Continue(ExpenseWriter { state: State::Payer(expense) }, request)
                },
                Err(failure) => Progress::Finished(Err(failure)),
            },
            State::Payer(expense) => match confirm(Reference::Payer, reply) {
                Ok(_) => ExpenseWriter::proceed(expense, 0),
                Err(failure) => Progress::Finished(Err(failure)),
            },
            State::Split(expense, i) => match confirm(
                Reference::SplitMember(expense.split_between[i]),
                reply,
            ) {
                Ok(_) => ExpenseWriter::proceed(expense, i + 1),
                Err(failure) => Progress::Finished(Err(failure)),
            },
            State::Insert => match reply {
                Reply::Inserted(id) => Progress::Finished(Ok(id)),
                _ => Progress::Finished(Err(Failure::Internal(Fault::Insert))),
            },
        }
    }
}

/// While every reply confirms a reference, the requests go out in the fixed
/// order: after `k` confirmations the write has the `k`-th request out, and no
/// other.
pub proof fn law_requests_in_order(e: ExpenseView, replies: Seq<Reply>)
    requires
        replies.len() <= reference_count(e),
        forall|j: int| 0 <= j < replies.len() ==> replies[j] == Reply::Found(true),
    ensures
        writer_run(e, replies) == ProgressView::<WriterView, Id>::Continue(
            writer_at(e, replies.len()),
            request_at(e, replies.len()),
        ),
    decreases replies.len(),
{
    if replies.len() > 0 {
        law_requests_in_order(e, replies.drop_last());
    }
}

/// The first reference that the store does not find decides the result: the
/// write ends with `NotFound` of that reference, whatever the replies after it
/// and whatever stands later in the split list.
pub proof fn law_first_missing_reference_decides(e: ExpenseView, replies: Seq<Reply>, k: int)
    requires
        0 <= k < reference_count(e),
        k < replies.len(),
        forall|j: int| 0 <= j < k ==> replies[j] == Reply::Found(true),
        replies[k] == Reply::Found(false),
    ensures
        writer_run(e, replies) == ProgressView::<WriterView, Id>::Finished(
            Err(Failure::NotFound(reference_at(e, k))),
        ),
    decreases replies.len(),
{
    if replies.len() == k + 1 {
        law_requests_in_order(e, replies.drop_last());
    } else {
        law_first_missing_reference_decides(e, replies.drop_last(), k);
    }
}

/// The insert goes out only after every reference was found: a write that has
/// reached it got `Found(true)` to each of its lookups.
pub proof fn law_insert_after_all_checks(e: ExpenseView, replies: Seq<Reply>)
    requires
        writer_run(e, replies) matches ProgressView::Continue(w, _) && w is Inserting,
    ensures
        replies.len() == reference_count(e),
        forall|j: int| 0 <= j < replies.len() ==> replies[j] == Reply::Found(true),
{
    lemma_run_while_checking(e, replies);
}

/// A write that still has a request out has been confirmed by every reply so
/// far, and stands where that many confirmations put it.
proof fn lemma_run_while_checking(e: ExpenseView, replies: Seq<Reply>)
    requires
        writer_run(e, replies) is Continue,
    ensures
        replies.len() <= reference_count(e),
        forall|j: int| 0 <= j < replies.len() ==> replies[j] == Reply::Found(true),
        writer_run(e, replies) == ProgressView::<WriterView, Id>::Continue(
            writer_at(e, replies.len()),
            request_at(e, replies.len()),
        ),
    decreases replies.len(),
{
    if replies.len() > 0 {
        let before = replies.drop_last();
        lemma_run_while_checking(e, before);
        assert forall|j: int| 0 <= j < replies.len() implies replies[j] == Reply::Found(true) by {
            if j < before.len() {
                assert(replies[j] == before[j]);
            }
        }
    }
}

} // verus!
