//! What stays true of a store that only the four operations write to: every
//! reference leads somewhere, and every organization lists exactly its
//! members.
//!
//! The operations check, then write. Against a store that other callers write
//! to between the check and the write, these are promises about the moment of
//! the check, no more. Against the store in memory, used by one caller at a
//! time, they hold throughout, and that is what is proved here.
use crate::id::{parsed, Id};
use crate::memory::{
    answer, expense_index, has_member, has_organization, organization_index, well_formed,
    StoreView,
};
use crate::model::{ExpenseView, MemberSummaryView, MemberView};
use crate::service::{
    add_expense_spec, add_member_spec, add_organization_spec, delete_expense_spec,
    law_delete_twice, law_expense_needs_references, law_member_is_listed,
    law_new_organization_has_no_members,
};
use vstd::prelude::*;

verus! {

/// The summary that an organization keeps of a stored member.
pub open spec fn summary_of(m: MemberView) -> MemberSummaryView {
    MemberSummaryView { id: m.id->0, name: m.name }
}

/// The summaries of the members of `owner`, in the order the members stand.
pub open spec fn summaries_of(members: Seq<MemberView>, owner: Id) -> Seq<MemberSummaryView>
    decreases members.len(),
{
    if members.len() == 0 {
        Seq::empty()
    } else {
        let rest = summaries_of(members.drop_last(), owner);
        if members.last().organization_id == owner {
            rest.push(summary_of(members.last()))
        } else {
            rest
        }
    }
}

/// Every member belongs to an organization that the store holds.
pub open spec fn members_refer(s: StoreView) -> bool {
    forall|i: int|
        0 <= i < s.members.len() ==> has_organization(s, (#[trigger] s.members[i]).organization_id)
}

/// The store holds the organization of an expense, its payer, and every
/// member it is split between.
pub open spec fn expense_refers(s: StoreView, e: ExpenseView) -> bool {
    &&& has_organization(s, e.organization_id)
    &&& has_member(s, e.paid_by)
    &&& forall|j: int|
        0 <= j < e.split_between.len() ==> has_member(s, #[trigger] e.split_between[j])
}

/// Every reference of every expense leads to a record that the store holds.
pub open spec fn expenses_refer(s: StoreView) -> bool {
    forall|i: int| 0 <= i < s.expenses.len() ==> expense_refers(s, #[trigger] s.expenses[i])
}

/// Every organization lists exactly its members: the summaries of the members
/// that belong to it, once each, in the order they were added.
pub open spec fn lists_agree(s: StoreView) -> bool {
    forall|i: int|
        0 <= i < s.organizations.len() ==> (#[trigger] s.organizations[i]).members == summaries_of(
            s.members,
            s.organizations[i].id->0,
        )
}

/// All of it: ids are the records' own, references lead somewhere, and lists
/// agree with the members.
pub open spec fn consistent(s: StoreView) -> bool {
    &&& well_formed(s)
    &&& members_refer(s)
    &&& expenses_refer(s)
    &&& lists_agree(s)
}

/// An organization that no member belongs to has no summaries.
proof fn lemma_no_members_no_summaries(members: Seq<MemberView>, owner: Id)
    requires
        forall|i: int| 0 <= i < members.len() ==> (#[trigger] members[i]).organization_id != owner,
    ensures
        summaries_of(members, owner) == Seq::<MemberSummaryView>::empty(),
    decreases members.len(),
{
    if members.len() > 0 {
        let before = members.drop_last();
        assert forall|i: int| 0 <= i < before.len() implies (#[trigger] before[i]).organization_id
            != owner by {
            assert(before[i] == members[i]);
        }
        lemma_no_members_no_summaries(before, owner);
        assert(members.last() == members[members.len() - 1]);
    }
}

/// What a store that has grown, and changed no id, held before, it holds.
proof fn lemma_grown_store_holds(s: StoreView, after: StoreView)
    requires
        s.organizations.len() <= after.organizations.len(),
        forall|i: int|
            0 <= i < s.organizations.len() ==> (#[trigger] after.organizations[i]).id
                == s.organizations[i].id,
        s.members.len() <= after.members.len(),
        forall|i: int|
            0 <= i < s.members.len() ==> (#[trigger] after.members[i]).id == s.members[i].id,
    ensures
        forall|id: Id| has_organization(s, id) ==> has_organization(after, id),
        forall|id: Id| has_member(s, id) ==> has_member(after, id),
        forall|e: ExpenseView| expense_refers(s, e) ==> expense_refers(after, e),
{
    assert forall|id: Id| has_organization(s, id) implies has_organization(after, id) by {
        let i = choose|i: int|
            0 <= i < s.organizations.len() && (#[trigger] s.organizations[i]).id == Some(id);
        assert(after.organizations[i].id == Some(id));
    }
    assert forall|id: Id| has_member(s, id) implies has_member(after, id) by {
        let i = choose|i: int| 0 <= i < s.members.len() && (#[trigger] s.members[i]).id == Some(id);
        assert(after.members[i].id == Some(id));
    }
    assert forall|e: ExpenseView| expense_refers(s, e) implies expense_refers(after, e) by {
        assert forall|j: int| 0 <= j < e.split_between.len() implies has_member(
            after,
            #[trigger] e.split_between[j],
        ) by {
            assert(has_member(s, e.split_between[j]));
        }
    }
}

/// A store that holds nothing is consistent.
pub proof fn law_empty_store_is_consistent(s: StoreView)
    requires
        s.organizations.len() == 0,
        s.members.len() == 0,
        s.expenses.len() == 0,
    ensures
        consistent(s),
{
}

/// Adding an organization keeps a store consistent, whether it succeeds or
/// not.
pub proof fn law_add_organization_keeps_consistency(s: StoreView, name: Seq<char>, create_time: i64)
    requires
        consistent(s),
    ensures
        consistent(add_organization_spec(s, name, create_time).0),
{
    reveal(answer);
    let (after, r) = add_organization_spec(s, name, create_time);
    if r is Ok {
        let id = r->Ok_0;
        law_new_organization_has_no_members(s, name, create_time);
        lemma_grown_store_holds(s, after);
        assert forall|i: int| 0 <= i < s.members.len() implies (
        #[trigger] s.members[i]).organization_id != id by {
            assert(has_organization(s, s.members[i].organization_id));
        }
        lemma_no_members_no_summaries(s.members, id);
        assert forall|i: int| 0 <= i < after.organizations.len() implies (
        #[trigger] after.organizations[i]).members == summaries_of(
            after.members,
            after.organizations[i].id->0,
        ) by {
            if i < s.organizations.len() {
                assert(after.organizations[i] == s.organizations[i]);
            }
        }
        assert(expenses_refer(after)) by {
            assert forall|i: int| 0 <= i < after.expenses.len() implies expense_refers(
                after,
                #[trigger] after.expenses[i],
            ) by {
                assert(expense_refers(s, s.expenses[i]));
            }
        }
    } else {
        lemma_grown_store_holds(s, after);
        assert forall|i: int| 0 <= i < after.expenses.len() implies expense_refers(
            after,
            #[trigger] after.expenses[i],
        ) by {
            assert(expense_refers(s, s.expenses[i]));
        }
    }
}

/// Adding a member keeps a store consistent, however it ends: a member that
/// was added belongs to an organization that is there, and stands in that
/// organization's list and in no other.
pub proof fn law_add_member_keeps_consistency(
    s: StoreView,
    organization_id: Seq<char>,
    name: Seq<char>,
    active: Option<bool>,
    created_time: i64,
)
    requires
        consistent(s),
    ensures
        consistent(add_member_spec(s, organization_id, name, active, created_time).0),
{
    reveal(answer);
    let (after, r) = add_member_spec(s, organization_id, name, active, created_time);
    lemma_grown_store_holds(s, after);
    if r is Ok {
        law_member_is_listed(s, organization_id, name, active, created_time);
        let summary = r->Ok_0;
        let added = after.members.last();
        let owner = added.organization_id;
        let at = organization_index(s, owner);
        assert(after.members.drop_last() == s.members);
        assert(summary_of(added) == summary);
        assert forall|i: int| 0 <= i < after.members.len() implies has_organization(
            after,
            (#[trigger] after.members[i]).organization_id,
        ) by {
            if i < s.members.len() {
                assert(after.members[i] == s.members[i]);
                assert(has_organization(s, s.members[i].organization_id));
            } else {
                assert(has_organization(s, owner));
            }
        }
        assert forall|i: int| 0 <= i < after.organizations.len() implies (
        #[trigger] after.organizations[i]).members == summaries_of(
            after.members,
            after.organizations[i].id->0,
        ) by {
            assert(s.organizations[i].members == summaries_of(
                s.members,
                s.organizations[i].id->0,
            ));
            if i != at {
                assert(after.organizations[i] == s.organizations[i]);
                assert(s.organizations[i].id != s.organizations[at].id);
            }
        }
    } else {
        assert(after.organizations == s.organizations);
        assert(after.members == s.members);
    }
    assert forall|i: int| 0 <= i < after.expenses.len() implies expense_refers(
        after,
        #[trigger] after.expenses[i],
    ) by {
        assert(expense_refers(s, s.expenses[i]));
    }
}

/// Adding an expense keeps a store consistent, however it ends: an expense
/// that was written refers to records that are there.
pub proof fn law_add_expense_keeps_consistency(s: StoreView, e: ExpenseView)
    requires
        consistent(s),
    ensures
        consistent(add_expense_spec(s, e).0),
{
    reveal(answer);
    let (after, r) = add_expense_spec(s, e);
    law_expense_needs_references(s, e);
    lemma_grown_store_holds(s, after);
    assert forall|i: int| 0 <= i < after.expenses.len() implies expense_refers(
        after,
        #[trigger] after.expenses[i],
    ) by {
        if i < s.expenses.len() {
            assert(after.expenses[i] == s.expenses[i]);
            assert(expense_refers(s, s.expenses[i]));
        } else {
            assert(expense_refers(s, e));
            assert(after.expenses[i].split_between == e.split_between);
        }
    }
    assert forall|i: int| 0 <= i < after.members.len() implies has_organization(
        after,
        (#[trigger] after.members[i]).organization_id,
    ) by {
        assert(has_organization(s, s.members[i].organization_id));
    }
}

/// Deleting an expense keeps a store consistent, however it ends: nothing
/// refers to an expense, so nothing is left dangling.
pub proof fn law_delete_expense_keeps_consistency(s: StoreView, id: Seq<char>)
    requires
        consistent(s),
    ensures
        consistent(delete_expense_spec(s, id).0),
{
    let (after, r) = delete_expense_spec(s, id);
    law_delete_twice(s, id);
    lemma_grown_store_holds(s, after);
    if r is Ok {
        let at = expense_index(s, parsed(id));
        assert forall|i: int| 0 <= i < after.expenses.len() implies expense_refers(
            after,
            #[trigger] after.expenses[i],
        ) by {
            let from = if i < at { i } else { i + 1 };
            assert(after.expenses[i] == s.expenses[from]);
            assert(expense_refers(s, s.expenses[from]));
        }
    }
}

} // verus!
