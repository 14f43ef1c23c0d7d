//! The four operations, run to their end against a store in memory, and what
//! they guarantee of it.
use crate::expense_deletion::ExpenseDeletion;
use crate::expense_writer::{reference_at, reference_count, request_at, writer_at, ExpenseWriter};
use crate::id::{is_hex_id, parsed, Id};
use crate::member_creation::{drafted_member, progress_view, CreationView, MemberCreation};
use crate::memory::{
    answer, expense_index, has_expense, has_member, has_organization, lemma_answer_append,
    lemma_answer_delete, lemma_answer_find, lemma_answer_insert_member, organization_index,
    well_formed, MemoryStore, StoreView,
};
use crate::model::{
    stamp_now, Expense, ExpenseView, MemberSummary, MemberSummaryView, OrganizationView,
};
use crate::organization_creation::{new_organization, OrganizationCreation};
use crate::protocol::{
    insert_result, Collection, Failure, Fault, Progress, ProgressView, Reference, Reply,
    RequestView,
};
use vstd::prelude::*;

verus! {

/// Whether the store holds what the `k`-th reference of an expense refers to.
pub open spec fn reference_held(s: StoreView, e: ExpenseView, k: int) -> bool {
    if k == 0 {
        has_organization(s, e.organization_id)
    } else if k == 1 {
        has_member(s, e.paid_by)
    } else {
        has_member(s, e.split_between[k - 2])
    }
}

/// The first reference of an expense, from the `from`-th on, that the store
/// does not hold.
pub open spec fn first_missing(s: StoreView, e: ExpenseView, from: nat) -> Option<nat>
    decreases reference_count(e) - from,
{
    if from >= reference_count(e) {
        None
    } else if !reference_held(s, e, from as int) {
        Some(from)
    } else {
        first_missing(s, e, from + 1)
    }
}

/// What adding an expense does to a store, and how it ends.
///
/// If a reference is missing, nothing is written and the result is `NotFound`
/// of the first that is. Otherwise the expense is inserted, and the result is
/// the id the store gave it.
pub open spec fn add_expense_spec(s: StoreView, e: ExpenseView) -> (StoreView, Result<Id, Failure>) {
    match first_missing(s, e, 0) {
        Some(k) => (s, Err(Failure::NotFound(reference_at(e, k as int)))),
        None => {
            let (after, reply) = answer(s, RequestView::InsertExpense(e));
            (after, insert_result(reply))
        },
    }
}

/// Adds an expense to the store, after checking each of its references.
pub fn add_expense(store: &mut MemoryStore, expense: Expense) -> (r: Result<Id, Failure>)
    ensures
        (final(store)@, r) == add_expense_spec(old(store)@, expense@),
{
    let ghost e = expense@;
    let ghost s = store@;
    let ghost mut k: nat = 0;
    let (mut writer, mut request) = ExpenseWriter::start(expense);
    loop
        invariant
            s == old(store)@,
            e == expense@,
            store@ == s,
            k <= reference_count(e),
            writer@ == writer_at(e, k),
            request@ == request_at(e, k),
            first_missing(s, e, k) == first_missing(s, e, 0),
        decreases reference_count(e) - k + 1,
    {
        let ghost asked = request@;
        let reply = store.answer(request);
        proof {
            if k < reference_count(e) {
                let id = asked->Find_id;
                lemma_answer_find(s, asked->Find_collection, id);
                assert(reply == Reply::Found(reference_held(s, e, k as int)));
            } else {
                assert(asked == RequestView::InsertExpense(e));
                assert(first_missing(s, e, k) is None);
            }
        }
        match writer.advance(reply) {
            Progress::Finished(r) => {
                return r;
            },
            Progress::Continue(next, question) => {
                writer = next;
                request = question;
                proof {
                    k = k + 1;
                }
            },
        }
    }
}

/// The value of a creation's result.
pub open spec fn summary_view(r: Result<MemberSummary, Failure>) -> Result<
    MemberSummaryView,
    Failure,
> {
    match r {
        Ok(summary) => Ok(summary@),
        Err(failure) => Err(failure),
    }
}

/// What adding a member does to a store, and how it ends.
///
/// A malformed organization id ends it with `InvalidArgument`, an id of no
/// organization with `NotFound`; nothing is written in either case. Otherwise
/// the member is inserted. If the store refuses the insert, the result is
/// `Internal`. If it does not, the summary of the new member is appended to
/// the organization's list, and the result is that summary.
pub open spec fn add_member_spec(
    s: StoreView,
    organization_id: Seq<char>,
    name: Seq<char>,
    active: Option<bool>,
    created_time: i64,
) -> (StoreView, Result<MemberSummaryView, Failure>) {
    match drafted_member(organization_id, name, active, created_time) {
        None => (s, Err(Failure::InvalidArgument(Reference::Organization))),
        Some(member) => if !has_organization(s, member.organization_id) {
            (s, Err(Failure::NotFound(Reference::Organization)))
        } else {
            let (inserted, reply) = answer(s, RequestView::InsertMember(member));
            match reply {
                Reply::Inserted(id) => {
                    let summary = MemberSummaryView { id, name };
                    (
                        answer(
                            inserted,
                            RequestView::AppendMember {
                                organization_id: member.organization_id,
                                summary,
                            },
                        ).0,
                        Ok(summary),
                    )
                },
                _ => (inserted, Err(Failure::Internal(Fault::Insert))),
            }
        },
    }
}

/// Where a creation may stand while it runs against a store that began as
/// `s`: what it has out, and what the store holds by then.
spec fn creation_on_course(
    s: StoreView,
    organization_id: Seq<char>,
    name: Seq<char>,
    active: Option<bool>,
    created_time: i64,
    now: StoreView,
    p: ProgressView<CreationView, MemberSummaryView>,
) -> bool {
    let drafted = drafted_member(organization_id, name, active, created_time);
    match p {
        ProgressView::Finished(r) => (now, r) == add_member_spec(
            s,
            organization_id,
            name,
            active,
            created_time,
        ),
        ProgressView::Continue(c, request) => drafted matches Some(member) && match c {
            CreationView::Looking { member: m } => {
                &&& now == s
                &&& m == member
                &&& request == RequestView::Find {
                    collection: Collection::Organizations,
                    id: member.organization_id,
                }
            },
            CreationView::Inserting { organization_id, name } => {
                &&& now == s
                &&& has_organization(s, member.organization_id)
                &&& organization_id == member.organization_id
                &&& name == member.name
                &&& request == RequestView::InsertMember(member)
            },
            CreationView::Synchronizing { summary } => {
                &&& has_organization(s, member.organization_id)
                &&& (now, Reply::Inserted(summary.id)) == answer(
                    s,
                    RequestView::InsertMember(member),
                )
                &&& summary.name == member.name
                &&& request == RequestView::AppendMember {
                    organization_id: member.organization_id,
                    summary,
                }
            },
        },
    }
}

/// How many requests a creation may still send.
spec fn creation_left(p: ProgressView<CreationView, MemberSummaryView>) -> nat {
    match p {
        ProgressView::Finished(_) => 0,
        ProgressView::Continue(c, _) => match c {
            CreationView::Looking { .. } => 3,
            CreationView::Inserting { .. } => 2,
            CreationView::Synchronizing { .. } => 1,
        },
    }
}

/// Adds a member, stamped `created_time`, to the organization that
/// `organization_id` spells.
///
/// The two writes are not one: see `member_creation`. Against this store,
/// which answers every request and is used by one caller at a time, the
/// append always finds the organization that the lookup found.
pub fn add_member_at(
    store: &mut MemoryStore,
    organization_id: &str,
    name: String,
    active: Option<bool>,
    created_time: i64,
) -> (r: Result<MemberSummary, Failure>)
    ensures
        (final(store)@, summary_view(r)) == add_member_spec(
            old(store)@,
            organization_id@,
            name@,
            active,
            created_time,
        ),
{
    let ghost s = store@;
    let mut progress = MemberCreation::start(organization_id, name, active, created_time);
    loop
        invariant
            s == old(store)@,
            creation_on_course(
                s,
                organization_id@,
                name@,
                active,
                created_time,
                store@,
                progress_view(progress),
            ),
        decreases creation_left(progress_view(progress)),
    {
        match progress {
            Progress::Finished(r) => {
                return r;
            },
            Progress::Continue(creation, request) => {
                let ghost before = store@;
                let ghost c = creation@;
                let ghost asked = request@;
                let reply = store.answer(request);
                proof {
                    let member = drafted_member(organization_id@, name@, active, created_time)->0;
                    match c {
                        CreationView::Looking { .. } => {
                            lemma_answer_find(
                                before,
                                Collection::Organizations,
                                member.organization_id,
                            );
                        },
                        CreationView::Inserting { .. } => {
                            lemma_answer_insert_member(before, member);
                        },
                        CreationView::Synchronizing { summary } => {
                            lemma_answer_insert_member(s, member);
                            assert(before.organizations == s.organizations);
                            assert(has_organization(before, member.organization_id)) by {
                                let i = choose|i: int|
                                    0 <= i < s.organizations.len() && (
                                    #[trigger] s.organizations[i]).id == Some(
                                        member.organization_id,
                                    );
                                assert(before.organizations[i].id == Some(member.organization_id));
                            }
                            lemma_answer_append(before, member.organization_id, summary);
                        },
                    }
                }
                progress = creation.advance(reply);
            },
        }
    }
}

/// Adds a member to the organization that `organization_id` spells, stamped
/// with the time it came with or, if it came with none, with the clock's.
pub fn add_member(
    store: &mut MemoryStore,
    organization_id: &str,
    name: String,
    active: Option<bool>,
    created_time: Option<i64>,
) -> (r: Result<MemberSummary, Failure>)
    ensures
        exists|stamped: i64|
            {
                &&& created_time matches Some(t) ==> stamped == t
                &&& (final(store)@, summary_view(r)) == #[trigger] add_member_spec(
                    old(store)@,
                    organization_id@,
                    name@,
                    active,
                    stamped,
                )
            },
{
    let stamped = stamp_now(created_time);
    add_member_at(store, organization_id, name, active, stamped)
}

/// What adding an organization does to a store, and how it ends: the new
/// organization is inserted, without members, and the result is the id the
/// store gave it; or the store refuses the insert, and the result is
/// `Internal`.
pub open spec fn add_organization_spec(s: StoreView, name: Seq<char>, create_time: i64) -> (
    StoreView,
    Result<Id, Failure>,
) {
    let (after, reply) = answer(
        s,
        RequestView::InsertOrganization(new_organization(name, create_time)),
    );
    (after, insert_result(reply))
}

/// Adds an organization named `name`, stamped `create_time`.
pub fn add_organization_at(store: &mut MemoryStore, name: String, create_time: i64) -> (r: Result<
    Id,
    Failure,
>)
    ensures
        (final(store)@, r) == add_organization_spec(old(store)@, name@, create_time),
{
    let (creation, request) = OrganizationCreation::start(name, create_time);
    let reply = store.answer(request);
    creation.finish(reply)
}

/// Adds an organization named `name`, stamped with the time it came with or,
/// if it came with none, with the clock's.
pub fn add_organization(store: &mut MemoryStore, name: String, create_time: Option<i64>) -> (r:
    Result<Id, Failure>)
    ensures
        exists|stamped: i64|
            {
                &&& create_time matches Some(t) ==> stamped == t
                &&& (final(store)@, r) == #[trigger] add_organization_spec(
                    old(store)@,
                    name@,
                    stamped,
                )
            },
{
    let stamped = stamp_now(create_time);
    add_organization_at(store, name, stamped)
}

/// What deleting an expense does to a store, and how it ends.
///
/// A malformed id ends it with `InvalidArgument`, and an id of no expense with
/// `NotFound`; nothing changes in either case. Otherwise the expense with that
/// id goes, and nothing else.
pub open spec fn delete_expense_spec(s: StoreView, id: Seq<char>) -> (
    StoreView,
    Result<(), Failure>,
) {
    if !is_hex_id(id) {
        (s, Err(Failure::InvalidArgument(Reference::Expense)))
    } else if !has_expense(s, parsed(id)) {
        (s, Err(Failure::NotFound(Reference::Expense)))
    } else {
        (StoreView { expenses: s.expenses.remove(expense_index(s, parsed(id))), ..s }, Ok(()))
    }
}

/// Deletes the expense whose id `id` spells.
pub fn delete_expense(store: &mut MemoryStore, id: &str) -> (r: Result<(), Failure>)
    ensures
        (final(store)@, r) == delete_expense_spec(old(store)@, id@),
{
    match ExpenseDeletion::start(id) {
        Progress::Finished(r) => r,
        Progress::Continue(deletion, request) => {
            proof {
                lemma_answer_delete(store@, parsed(id@));
            }
            let reply = store.answer(request);
            deletion.finish(reply)
        },
    }
}

/// A member is added only to an organization that the store held when the
/// member was added: with a malformed id, or the id of no organization, the
/// result is an error and the store is as it was.
pub proof fn law_member_needs_organization(
    s: StoreView,
    organization_id: Seq<char>,
    name: Seq<char>,
    active: Option<bool>,
    created_time: i64,
)
    ensures
        add_member_spec(s, organization_id, name, active, created_time).1 is Ok ==> is_hex_id(
            organization_id,
        ) && has_organization(s, parsed(organization_id)),
        !is_hex_id(organization_id) ==> add_member_spec(
            s,
            organization_id,
            name,
            active,
            created_time,
        ) == (
            s,
            Err::<MemberSummaryView, Failure>(Failure::InvalidArgument(Reference::Organization)),
        ),
        is_hex_id(organization_id) && !has_organization(s, parsed(organization_id))
            ==> add_member_spec(s, organization_id, name, active, created_time) == (
            s,
            Err::<MemberSummaryView, Failure>(Failure::NotFound(Reference::Organization)),
        ),
{
}

/// What a successful addition of a member leaves behind: the member, under an
/// id that no member had, at the end of the members; its summary, with that id
/// and its name, at the end of its organization's list; and everything else as
/// it was.
pub proof fn law_member_is_listed(
    s: StoreView,
    organization_id: Seq<char>,
    name: Seq<char>,
    active: Option<bool>,
    created_time: i64,
)
    requires
        well_formed(s),
        add_member_spec(s, organization_id, name, active, created_time).1 is Ok,
    ensures
        ({
            let (after, r) = add_member_spec(s, organization_id, name, active, created_time);
            let summary = r->Ok_0;
            let owner = parsed(organization_id);
            let i = organization_index(s, owner);
            let o = s.organizations[i];
            &&& 0 <= i < s.organizations.len() && o.id == Some(owner)
            &&& summary.name == name
            &&& !has_member(s, summary.id)
            &&& after.members == s.members.push(
                drafted_member(organization_id, name, active, created_time)->0.with_id(summary.id),
            )
            &&& after.organizations == s.organizations.update(
                i,
                OrganizationView { members: o.members.push(summary), ..o },
            )
            &&& after.expenses == s.expenses
            &&& well_formed(after)
        }),
{
    reveal(answer);
    let member = drafted_member(organization_id, name, active, created_time)->0;
    let owner = parsed(organization_id);
    let (inserted, reply) = answer(s, RequestView::InsertMember(member));
    let i = organization_index(s, owner);
    assert(inserted.organizations == s.organizations);
    assert(has_organization(inserted, owner)) by {
        assert(inserted.organizations[i].id == Some(owner));
    }
    assert(organization_index(inserted, owner) == organization_index(s, owner));
}

/// An organization that was just added has no members, and has the name it
/// was given; the organizations that were there are as they were.
pub proof fn law_new_organization_has_no_members(s: StoreView, name: Seq<char>, create_time: i64)
    requires
        well_formed(s),
        add_organization_spec(s, name, create_time).1 is Ok,
    ensures
        ({
            let (after, r) = add_organization_spec(s, name, create_time);
            let id = r->Ok_0;
            &&& !has_organization(s, id)
            &&& after.organizations == s.organizations.push(
                OrganizationView { id: Some(id), name, members: Seq::empty(), create_time },
            )
            &&& has_organization(after, id)
            &&& after.organizations[organization_index(after, id)].members == Seq::<
                MemberSummaryView,
            >::empty()
            &&& after.organizations[organization_index(after, id)].name == name
            &&& after.members == s.members
            &&& after.expenses == s.expenses
            &&& well_formed(after)
        }),
{
    reveal(answer);
    let (after, r) = add_organization_spec(s, name, create_time);
    let id = r->Ok_0;
    let last = s.organizations.len() as int;
    assert(after.organizations[last].id == Some(id));
}

/// Deleting the same expense twice: if the store held it, the first deletion
/// succeeds and the second finds nothing; the second never succeeds, never
/// fails for want of an answer, and changes nothing.
pub proof fn law_delete_twice(s: StoreView, id: Seq<char>)
    requires
        well_formed(s),
    ensures
        ({
            let (once, first) = delete_expense_spec(s, id);
            let (twice, second) = delete_expense_spec(once, id);
            &&& is_hex_id(id) && has_expense(s, parsed(id)) ==> first == Ok::<(), Failure>(())
            &&& is_hex_id(id) ==> second == Err::<(), Failure>(
                Failure::NotFound(Reference::Expense),
            )
            &&& !is_hex_id(id) ==> second == Err::<(), Failure>(
                Failure::InvalidArgument(Reference::Expense),
            )
            &&& twice == once
            &&& well_formed(once)
        }),
{
    if is_hex_id(id) && has_expense(s, parsed(id)) {
        let target = parsed(id);
        let i = expense_index(s, target);
        let once = delete_expense_spec(s, id).0;
        assert(once.expenses == s.expenses.remove(i));
        assert forall|j: int| 0 <= j < once.expenses.len() implies (#[trigger] once.expenses[j]).id
            != Some(target) by {
            if j < i {
                assert(once.expenses[j] == s.expenses[j]);
            } else {
                assert(once.expenses[j] == s.expenses[j + 1]);
            }
        }
        assert forall|j: int, k: int| 0 <= j < k < once.expenses.len() implies (
        #[trigger] once.expenses[j]).id != (#[trigger] once.expenses[k]).id by {
            let a = if j < i { j } else { j + 1 };
            let b = if k < i { k } else { k + 1 };
            assert(once.expenses[j] == s.expenses[a]);
            assert(once.expenses[k] == s.expenses[b]);
        }
        assert forall|j: int| 0 <= j < once.expenses.len() implies (#[trigger] once.expenses[j]).id
            is Some by {
            let a = if j < i { j } else { j + 1 };
            assert(once.expenses[j] == s.expenses[a]);
        }
    }
}

/// Which reference is the first missing one: the `k`-th is, exactly if the
/// store holds all before it and not it.
pub proof fn law_first_missing_is_least(s: StoreView, e: ExpenseView, k: nat)
    ensures
        first_missing(s, e, 0) == Some(k) <==> {
            &&& k < reference_count(e)
            &&& !reference_held(s, e, k as int)
            &&& forall|j: int| 0 <= j < k ==> reference_held(s, e, j)
        },
        first_missing(s, e, 0) is None <==> forall|j: int|
            0 <= j < reference_count(e) ==> reference_held(s, e, j),
{
    lemma_first_missing_from(s, e, 0);
}

/// The first missing reference from `from` on is the least one that is
/// missing there.
proof fn lemma_first_missing_from(s: StoreView, e: ExpenseView, from: nat)
    ensures
        match first_missing(s, e, from) {
            Some(k) => {
                &&& from <= k < reference_count(e)
                &&& !reference_held(s, e, k as int)
                &&& forall|j: int| from <= j < k ==> reference_held(s, e, j)
            },
            None => forall|j: int| from <= j < reference_count(e) ==> reference_held(s, e, j),
        },
    decreases reference_count(e) - from,
{
    if from < reference_count(e) && reference_held(s, e, from as int) {
        lemma_first_missing_from(s, e, from + 1);
    }
}

/// An expense whose organization and payer are there, and whose split list
/// has a member that is not, is refused with `NotFound` of the first such
/// member of the list, and nothing is written. What stands in the list after
/// that member has no part in it.
pub proof fn law_missing_split_member_is_named(s: StoreView, e: ExpenseView, i: int)
    requires
        has_organization(s, e.organization_id),
        has_member(s, e.paid_by),
        0 <= i < e.split_between.len(),
        !has_member(s, e.split_between[i]),
        forall|j: int| 0 <= j < i ==> has_member(s, e.split_between[j]),
    ensures
        add_expense_spec(s, e) == (
            s,
            Err::<Id, Failure>(Failure::NotFound(Reference::SplitMember(e.split_between[i]))),
        ),
{
    let k = (i + 2) as nat;
    assert forall|j: int| 0 <= j < k implies reference_held(s, e, j) by {
        if j >= 2 {
            assert(has_member(s, e.split_between[j - 2]));
        }
    }
    law_first_missing_is_least(s, e, k);
}

/// An expense is written only if the store holds its organization, its payer
/// and every member of its split list; otherwise nothing is written.
pub proof fn law_expense_needs_references(s: StoreView, e: ExpenseView)
    ensures
        add_expense_spec(s, e).1 is Ok ==> {
            &&& has_organization(s, e.organization_id)
            &&& has_member(s, e.paid_by)
            &&& forall|j: int|
                0 <= j < e.split_between.len() ==> has_member(s, #[trigger] e.split_between[j])
        },
        add_expense_spec(s, e).1 matches Err(Failure::NotFound(_)) ==> add_expense_spec(s, e).0
            == s,
{
    lemma_first_missing_from(s, e, 0);
    if add_expense_spec(s, e).1 is Ok {
        assert(reference_held(s, e, 0));
        assert(reference_held(s, e, 1));
        assert forall|j: int| 0 <= j < e.split_between.len() implies has_member(
            s,
            #[trigger] e.split_between[j],
        ) by {
            assert(reference_held(s, e, j + 2));
        }
    }
}

} // verus!
