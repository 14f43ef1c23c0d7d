//! A record store held in memory. It answers every request, and answers it
//! truly: what it reports found is there, what it reports written is written.
//! The operations are stated and tested against it.
use crate::id::Id;
use crate::model::{
    Expense, ExpenseView, Member, MemberSummary, MemberSummaryView, MemberView, Organization,
    OrganizationView,
};
use crate::protocol::{Collection, Reply, Request, RequestView};
use vstd::prelude::*;

verus! {

/// The id that the store assigns to the `n`-th record it names itself: four
/// zero bytes, then `n`, high byte first.
pub open spec fn issued_id(n: u64) -> Id {
    Id {
        bytes: [
            0u8,
            0u8,
            0u8,
            0u8,
            (n / 0x100_0000_0000_0000) as u8,
            (n / 0x1_0000_0000_0000 % 0x100) as u8,
            (n / 0x100_0000_0000 % 0x100) as u8,
            (n / 0x1_0000_0000 % 0x100) as u8,
            (n / 0x100_0000 % 0x100) as u8,
            (n / 0x1_0000 % 0x100) as u8,
            (n / 0x100 % 0x100) as u8,
            (n % 0x100) as u8,
        ],
    }
}

/// What a store holds: the records of each collection, in the order they were
/// inserted, and the number of ids it has assigned.
pub struct StoreView {
    pub organizations: Seq<OrganizationView>,
    pub members: Seq<MemberView>,
    pub expenses: Seq<ExpenseView>,
    pub issued: u64,
}

/// Whether the store holds an organization with this id.
pub open spec fn has_organization(s: StoreView, id: Id) -> bool {
    exists|i: int| 0 <= i < s.organizations.len() && (#[trigger] s.organizations[i]).id == Some(id)
}

/// Whether the store holds a member with this id.
pub open spec fn has_member(s: StoreView, id: Id) -> bool {
    exists|i: int| 0 <= i < s.members.len() && (#[trigger] s.members[i]).id == Some(id)
}

/// Whether the store holds an expense with this id.
pub open spec fn has_expense(s: StoreView, id: Id) -> bool {
    exists|i: int| 0 <= i < s.expenses.len() && (#[trigger] s.expenses[i]).id == Some(id)
}

/// Whether the collection holds a record with this id.
pub open spec fn holds(s: StoreView, collection: Collection, id: Id) -> bool {
    match collection {
        Collection::Organizations => has_organization(s, id),
        Collection::Members => has_member(s, id),
        Collection::Expenses => has_expense(s, id),
    }
}

/// Where the organization with this id stands, if the store has it.
pub open spec fn organization_index(s: StoreView, id: Id) -> int {
    choose|i: int| 0 <= i < s.organizations.len() && (#[trigger] s.organizations[i]).id == Some(id)
}

/// Where the member with this id stands, if the store has it.
pub open spec fn member_index(s: StoreView, id: Id) -> int {
    choose|i: int| 0 <= i < s.members.len() && (#[trigger] s.members[i]).id == Some(id)
}

/// Where the expense with this id stands, if the store has it.
pub open spec fn expense_index(s: StoreView, id: Id) -> int {
    choose|i: int| 0 <= i < s.expenses.len() && (#[trigger] s.expenses[i]).id == Some(id)
}

/// Every record has an id, and no two records of a collection share one.
pub open spec fn well_formed(s: StoreView) -> bool {
    &&& forall|i: int| 0 <= i < s.organizations.len() ==> (#[trigger] s.organizations[i]).id is Some
    &&& forall|i: int, j: int|
        0 <= i < j < s.organizations.len() ==> (#[trigger] s.organizations[i]).id != (
        #[trigger] s.organizations[j]).id
    &&& forall|i: int| 0 <= i < s.members.len() ==> (#[trigger] s.members[i]).id is Some
    &&& forall|i: int, j: int|
        0 <= i < j < s.members.len() ==> (#[trigger] s.members[i]).id != (
        #[trigger] s.members[j]).id
    &&& forall|i: int| 0 <= i < s.expenses.len() ==> (#[trigger] s.expenses[i]).id is Some
    &&& forall|i: int, j: int|
        0 <= i < j < s.expenses.len() ==> (#[trigger] s.expenses[i]).id != (
        #[trigger] s.expenses[j]).id
}

/// The id under which a record is inserted: its own if it has one, else the
/// next that the store assigns.
pub open spec fn insert_id(given: Option<Id>, issued: u64) -> Id {
    match given {
        Some(id) => id,
        None => issued_id(issued),
    }
}

/// The number of ids assigned after an insert.
pub open spec fn insert_issued(given: Option<Id>, issued: u64) -> u64 {
    if given is None && issued < u64::MAX {
        (issued + 1) as u64
    } else {
        issued
    }
}

/// Whether an insert is refused: the id is taken, or the store has no id left
/// to assign.
pub open spec fn insert_refused(taken: bool, given: Option<Id>, issued: u64) -> bool {
    taken || (given is None && issued == u64::MAX)
}

/// What the store does with a request, and what it answers.
///
/// A lookup changes nothing and says whether the record is there. An insert
/// adds the record at the end of its collection under `insert_id`, unless it
/// is refused, and then adds nothing. An append adds the summary at the end of
/// the list of the organization with that id and reports one match, or finds
/// no such organization, changes nothing and reports none. A delete removes
/// the expense with that id and reports one removed, or finds none, changes
/// nothing and reports none.
#[verifier::opaque]
pub open spec fn answer(s: StoreView, request: RequestView) -> (StoreView, Reply) {
    match request {
        RequestView::Find { collection, id } => (s, Reply::Found(holds(s, collection, id))),
        RequestView::InsertOrganization(o) => {
            let id = insert_id(o.id, s.issued);
            let issued = insert_issued(o.id, s.issued);
            if insert_refused(has_organization(s, id), o.id, s.issued) {
                (StoreView { issued, ..s }, Reply::Failed)
            } else {
                (
                    StoreView {
                        organizations: s.organizations.push(OrganizationView { id: Some(id), ..o }),
                        issued,
                        ..s
                    },
                    Reply::Inserted(id),
                )
            }
        },
        RequestView::InsertMember(m) => {
            let id = insert_id(m.id, s.issued);
            let issued = insert_issued(m.id, s.issued);
            if insert_refused(has_member(s, id), m.id, s.issued) {
                (StoreView { issued, ..s }, Reply::Failed)
            } else {
                (
                    StoreView {
                        members: s.members.push(MemberView { id: Some(id), ..m }),
                        issued,
                        ..s
                    },
                    Reply::Inserted(id),
                )
            }
        },
        RequestView::InsertExpense(e) => {
            let id = insert_id(e.id, s.issued);
            let issued = insert_issued(e.id, s.issued);
            if insert_refused(has_expense(s, id), e.id, s.issued) {
                (StoreView { issued, ..s }, Reply::Failed)
            } else {
                (
                    StoreView {
                        expenses: s.expenses.push(ExpenseView { id: Some(id), ..e }),
                        issued,
                        ..s
                    },
                    Reply::Inserted(id),
                )
            }
        },
        RequestView::AppendMember { organization_id, summary } => {
            if has_organization(s, organization_id) {
                let i = organization_index(s, organization_id);
                let o = s.organizations[i];
                (
                    StoreView {
                        organizations: s.organizations.update(
                            i,
                            OrganizationView { members: o.members.push(summary), ..o },
                        ),
                        ..s
                    },
                    Reply::Updated(1),
                )
            } else {
                (s, Reply::Updated(0))
            }
        },
        RequestView::DeleteExpense(id) => {
            if has_expense(s, id) {
                (
                    StoreView { expenses: s.expenses.remove(expense_index(s, id)), ..s },
                    Reply::Deleted(1),
                )
            } else {
                (s, Reply::Deleted(0))
            }
        },
    }
}

/// A lookup changes nothing, and says whether the record is there.
pub proof fn lemma_answer_find(s: StoreView, collection: Collection, id: Id)
    ensures
        answer(s, RequestView::Find { collection, id }) == (s, Reply::Found(holds(s, collection, id))),
{
    reveal(answer);
}

/// The insert of a member touches no organization and no expense, and is
/// answered `Inserted` or `Failed`.
pub proof fn lemma_answer_insert_member(s: StoreView, m: MemberView)
    ensures
        answer(s, RequestView::InsertMember(m)).0.organizations == s.organizations,
        answer(s, RequestView::InsertMember(m)).0.expenses == s.expenses,
        answer(s, RequestView::InsertMember(m)).1 is Inserted || answer(
            s,
            RequestView::InsertMember(m),
        ).1 is Failed,
{
    reveal(answer);
}

/// The append of a summary is answered with one match if the store has the
/// organization, and with none if it has not.
pub proof fn lemma_answer_append(s: StoreView, organization_id: Id, summary: MemberSummaryView)
    ensures
        answer(s, RequestView::AppendMember { organization_id, summary }).1 == Reply::Updated(
            if has_organization(s, organization_id) {
                1
            } else {
                0
            },
        ),
{
    reveal(answer);
}

/// The delete of an expense that the store has not changes nothing and reports
/// none removed; of one that it has, removes it and reports one.
pub proof fn lemma_answer_delete(s: StoreView, id: Id)
    ensures
        answer(s, RequestView::DeleteExpense(id)) == if has_expense(s, id) {
            (StoreView { expenses: s.expenses.remove(expense_index(s, id)), ..s }, Reply::Deleted(1))
        } else {
            (s, Reply::Deleted(0))
        },
{
    reveal(answer);
}

/// The values of a list of organizations, in order.
pub open spec fn organizations_view(list: Seq<Organization>) -> Seq<OrganizationView> {
    list.map_values(|o: Organization| o@)
}

/// The values of a list of members, in order.
pub open spec fn members_view(list: Seq<Member>) -> Seq<MemberView> {
    list.map_values(|m: Member| m@)
}

/// The values of a list of expenses, in order.
pub open spec fn expenses_view(list: Seq<Expense>) -> Seq<ExpenseView> {
    list.map_values(|e: Expense| e@)
}

/// A record store in memory.
#[derive(Debug)]
pub struct MemoryStore {
    organizations: Vec<Organization>,
    members: Vec<Member>,
    expenses: Vec<Expense>,
    issued: u64,
}

impl View for MemoryStore {
    type V = StoreView;

    closed spec fn view(&self) -> StoreView {
        StoreView {
            organizations: organizations_view(self.organizations@),
            members: members_view(self.members@),
            expenses: expenses_view(self.expenses@),
            issued: self.issued,
        }
    }
}

/// The id that the store assigns to the `n`-th record it names itself.
fn issue(n: u64) -> (id: Id)
    ensures
        id == issued_id(n),
{
    let bytes: [u8; 12] = [
        0u8,
        0u8,
        0u8,
        0u8,
        (n / 0x100_0000_0000_0000) as u8,
        (n / 0x1_0000_0000_0000 % 0x100) as u8,
        (n / 0x100_0000_0000 % 0x100) as u8,
        (n / 0x1_0000_0000 % 0x100) as u8,
        (n / 0x100_0000 % 0x100) as u8,
        (n / 0x1_0000 % 0x100) as u8,
        (n / 0x100 % 0x100) as u8,
        (n % 0x100) as u8,
    ];
    Id { bytes }
}

impl MemoryStore {
    /// What every store keeps to: each record has an id of its own.
    #[verifier::type_invariant]
    pub open spec fn inv(self) -> bool {
        well_formed(self@)
    }

    /// An empty store, which has assigned no id yet.
    pub fn new() -> (r: MemoryStore)
        ensures
            r@ == (StoreView {
                organizations: Seq::empty(),
                members: Seq::empty(),
                expenses: Seq::empty(),
                issued: 0,
            }),
            well_formed(r@),
    {
        let r = MemoryStore {
            organizations: Vec::new(),
            members: Vec::new(),
            expenses: Vec::new(),
            issued: 0,
        };
        assert(organizations_view(r.organizations@) =~= Seq::empty());
        assert(members_view(r.members@) =~= Seq::empty());
        assert(expenses_view(r.expenses@) =~= Seq::empty());
        r
    }

    fn find_organization(&self, id: &Id) -> (r: Option<usize>)
        ensures
            match r {
                Some(i) => i < self.organizations.len() && self.organizations[i as int].id == Some(
                    *id,
                ),
                None => !has_organization(self@, *id),
            },
    {
        let mut i: usize = 0;
        while i < self.organizations.len()
            invariant
                i <= self.organizations.len(),
                forall|j: int| 0 <= j < i ==> self.organizations[j].id != Some(*id),
            decreases self.organizations.len() - i,
        {
            let here = match self.organizations[i].id {
                Some(other) => other.same(id),
                None => false,
            };
            if here {
                return Some(i);
            }
            i += 1;
        }
        assert forall|j: int| 0 <= j < self@.organizations.len() implies (
        #[trigger] self@.organizations[j]).id != Some(*id) by {
            assert(self@.organizations[j] == self.organizations[j]@);
        }
        None
    }

    fn find_member(&self, id: &Id) -> (r: Option<usize>)
        ensures
            match r {
                Some(i) => i < self.members.len() && self.members[i as int].id == Some(*id),
                None => !has_member(self@, *id),
            },
    {
        let mut i: usize = 0;
        while i < self.members.len()
            invariant
                i <= self.members.len(),
                forall|j: int| 0 <= j < i ==> self.members[j].id != Some(*id),
            decreases self.members.len() - i,
        {
            let here = match self.members[i].id {
                Some(other) => other.same(id),
                None => false,
            };
            if here {
                return Some(i);
            }
            i += 1;
        }
        assert forall|j: int| 0 <= j < self@.members.len() implies (#[trigger] self@.members[j]).id
            != Some(*id) by {
            assert(self@.members[j] == self.members[j]@);
        }
        None
    }

    fn find_expense(&self, id: &Id) -> (r: Option<usize>)
        ensures
            match r {
                Some(i) => i < self.expenses.len() && self.expenses[i as int].id == Some(*id),
                None => !has_expense(self@, *id),
            },
    {
        let mut i: usize = 0;
        while i < self.expenses.len()
            invariant
                i <= self.expenses.len(),
                forall|j: int| 0 <= j < i ==> self.expenses[j].id != Some(*id),
            decreases self.expenses.len() - i,
        {
            let here = match self.expenses[i].id {
                Some(other) => other.same(id),
                None => false,
            };
            if here {
                return Some(i);
            }
            i += 1;
        }
        assert forall|j: int| 0 <= j < self@.expenses.len() implies (
        #[trigger] self@.expenses[j]).id != Some(*id) by {
            assert(self@.expenses[j] == self.expenses[j]@);
        }
        None
    }

    /// Whether the collection holds a record with this id.
    pub fn contains(&self, collection: Collection, id: &Id) -> (r: bool)
        ensures
            r == holds(self@, collection, *id),
    {
        match collection {
            Collection::Organizations => {
                let at = self.find_organization(id);
                proof {
                    if let Some(i) = at {
                        assert(self@.organizations[i as int] == self.organizations[i as int]@);
                    }
                }
                at.is_some()
            },
            Collection::Members => {
                let at = self.find_member(id);
                proof {
                    if let Some(i) = at {
                        assert(self@.members[i as int] == self.members[i as int]@);
                    }
                }
                at.is_some()
            },
            Collection::Expenses => {
                let at = self.find_expense(id);
                proof {
                    if let Some(i) = at {
                        assert(self@.expenses[i as int] == self.expenses[i as int]@);
                    }
                }
                at.is_some()
            },
        }
    }

    fn insert_organization(&mut self, organization: Organization) -> (reply: Reply)
        ensures
            (final(self)@, reply) == answer(
                old(self)@,
                RequestView::InsertOrganization(organization@),
            ),
    {
        proof {
            use_type_invariant(&*self);
            reveal(answer);
        }
        let ghost given = organization@;
        let mut organization = organization;
        let id = match organization.id {
            Some(id) => id,
            None => {
                if self.issued == u64::MAX {
                    return Reply::Failed;
                }
                let id = issue(self.issued);
                self.issued = self.issued + 1;
                id
            },
        };
        if self.contains(Collection::Organizations, &id) {
            return Reply::Failed;
        }
        organization.id = Some(id);
        let mut list: Vec<Organization> = Vec::new();
        std::mem::swap(&mut self.organizations, &mut list);
        list.push(organization);
        proof {
            let added = OrganizationView { id: Some(id), ..given };
            assert(organizations_view(list@) =~= old(self)@.organizations.push(added));
        }
        std::mem::swap(&mut self.organizations, &mut list);
        proof {
            let added = OrganizationView { id: Some(id), ..given };
            assert(self@.organizations =~= old(self)@.organizations.push(added));
        }
        Reply::Inserted(id)
    }

    fn insert_member(&mut self, member: Member) -> (reply: Reply)
        ensures
            (final(self)@, reply) == answer(old(self)@, RequestView::InsertMember(member@)),
    {
        proof {
            use_type_invariant(&*self);
            reveal(answer);
        }
        let ghost given = member@;
        let mut member = member;
        let id = match member.id {
            Some(id) => id,
            None => {
                if self.issued == u64::MAX {
                    return Reply::Failed;
                }
                let id = issue(self.issued);
                self.issued = self.issued + 1;
                id
            },
        };
        if self.contains(Collection::Members, &id) {
            return Reply::Failed;
        }
        member.id = Some(id);
        let mut list: Vec<Member> = Vec::new();
        std::mem::swap(&mut self.members, &mut list);
        list.push(member);
        proof {
            let added = MemberView { id: Some(id), ..given };
            assert(members_view(list@) =~= old(self)@.members.push(added));
        }
        std::mem::swap(&mut self.members, &mut list);
        proof {
            let added = MemberView { id: Some(id), ..given };
            assert(self@.members =~= old(self)@.members.push(added));
        }
        Reply::Inserted(id)
    }

    fn insert_expense(&mut self, expense: Expense) -> (reply: Reply)
        ensures
            (final(self)@, reply) == answer(old(self)@, RequestView::InsertExpense(expense@)),
    {
        proof {
            use_type_invariant(&*self);
            reveal(answer);
        }
        let ghost given = expense@;
        let mut expense = expense;
        let id = match expense.id {
            Some(id) => id,
            None => {
                if self.issued == u64::MAX {
                    return Reply::Failed;
                }
                let id = issue(self.issued);
                self.issued = self.issued + 1;
                id
            },
        };
        if self.contains(Collection::Expenses, &id) {
            return Reply::Failed;
        }
        expense.id = Some(id);
        let mut list: Vec<Expense> = Vec::new();
        std::mem::swap(&mut self.expenses, &mut list);
        list.push(expense);
        proof {
            let added = ExpenseView { id: Some(id), ..given };
            assert(expenses_view(list@) =~= old(self)@.expenses.push(added));
        }
        std::mem::swap(&mut self.expenses, &mut list);
        proof {
            let added = ExpenseView { id: Some(id), ..given };
            assert(self@.expenses =~= old(self)@.expenses.push(added));
        }
        Reply::Inserted(id)
    }

    fn append_member(&mut self, organization_id: Id, summary: MemberSummary) -> (reply: Reply)
        ensures
            (final(self)@, reply) == answer(
                old(self)@,
                RequestView::AppendMember { organization_id, summary: summary@ },
            ),
    {
        proof {
            use_type_invariant(&*self);
            reveal(answer);
        }
        match self.find_organization(&organization_id) {
            None => Reply::Updated(0),
            Some(i) => {
                let ghost before = self@;
                let ghost added = summary@;
                proof {
                    assert(before.organizations[i as int] == self.organizations[i as int]@);
                    assert(organization_index(before, organization_id) == i);
                }
                let mut list: Vec<Organization> = Vec::new();
                std::mem::swap(&mut self.organizations, &mut list);
                let mut organization = list.remove(i);
                let ghost o = organization@;
                organization.members.push(summary);
                proof {
                    assert(organization@.members =~= o.members.push(added));
                }
                list.insert(i, organization);
                proof {
                    assert(organizations_view(list@) =~= before.organizations.update(
                        i as int,
                        OrganizationView { members: o.members.push(added), ..o },
                    ));
                }
                std::mem::swap(&mut self.organizations, &mut list);
                proof {
                    assert(self@.organizations =~= before.organizations.update(
                        i as int,
                        OrganizationView { members: o.members.push(added), ..o },
                    ));
                }
                Reply::Updated(1)
            },
        }
    }

    fn remove_expense(&mut self, id: Id) -> (reply: Reply)
        ensures
            (final(self)@, reply) == answer(old(self)@, RequestView::DeleteExpense(id)),
    {
        proof {
            use_type_invariant(&*self);
            reveal(answer);
        }
        match self.find_expense(&id) {
            None => Reply::Deleted(0),
            Some(i) => {
                let ghost before = self@;
                proof {
                    assert(before.expenses[i as int] == self.expenses[i as int]@);
                    assert(expense_index(before, id) == i);
                }
                let mut list: Vec<Expense> = Vec::new();
                std::mem::swap(&mut self.expenses, &mut list);
                let _ = list.remove(i);
                proof {
                    assert(expenses_view(list@) =~= before.expenses.remove(i as int));
                }
                std::mem::swap(&mut self.expenses, &mut list);
                proof {
                    assert(self@.expenses =~= before.expenses.remove(i as int));
                }
                Reply::Deleted(1)
            },
        }
    }

    /// Answers one request. The store never fails to answer a lookup, an
    /// append or a delete; it answers `Failed` only to an insert it refuses.
    pub fn answer(&mut self, request: Request) -> (reply: Reply)
        ensures
            (final(self)@, reply) == answer(old(self)@, request@),
            well_formed(final(self)@),
    {
        proof {
            reveal(answer);
        }
        let reply = match request {
            Request::Find { collection, id } => Reply::Found(self.contains(collection, &id)),
            Request::InsertOrganization(organization) => self.insert_organization(organization),
            Request::InsertMember(member) => self.insert_member(member),
            Request::InsertExpense(expense) => self.insert_expense(expense),
            Request::AppendMember { organization_id, summary } => self.append_member(
                organization_id,
                summary,
            ),
            Request::DeleteExpense(id) => self.remove_expense(id),
        };
        proof {
            use_type_invariant(&*self);
        }
        reply
    }

    /// The organization with this id, as it is stored.
    pub fn organization(&self, id: &Id) -> (r: Option<&Organization>)
        ensures
            r is Some == has_organization(self@, *id),
            r matches Some(o) ==> o@ == self@.organizations[organization_index(self@, *id)],
    {
        proof {
            use_type_invariant(self);
        }
        match self.find_organization(id) {
            None => None,
            Some(i) => {
                proof {
                    assert(self@.organizations[i as int] == self.organizations[i as int]@);
                    assert(organization_index(self@, *id) == i);
                }
                Some(&self.organizations[i])
            },
        }
    }

    /// The member with this id, as it is stored.
    pub fn member(&self, id: &Id) -> (r: Option<&Member>)
        ensures
            r is Some == has_member(self@, *id),
            r matches Some(m) ==> m@ == self@.members[member_index(self@, *id)],
    {
        proof {
            use_type_invariant(self);
        }
        match self.find_member(id) {
            None => None,
            Some(i) => {
                proof {
                    assert(self@.members[i as int] == self.members[i as int]@);
                    assert(member_index(self@, *id) == i);
                }
                Some(&self.members[i])
            },
        }
    }

    /// The expense with this id, as it is stored.
    pub fn expense(&self, id: &Id) -> (r: Option<&Expense>)
        ensures
            r is Some == has_expense(self@, *id),
            r matches Some(e) ==> e@ == self@.expenses[expense_index(self@, *id)],
    {
        proof {
            use_type_invariant(self);
        }
        match self.find_expense(id) {
            None => None,
            Some(i) => {
                proof {
                    assert(self@.expenses[i as int] == self.expenses[i as int]@);
                    assert(expense_index(self@, *id) == i);
                }
                Some(&self.expenses[i])
            },
        }
    }

    /// The number of records in a collection.
    pub fn count(&self, collection: Collection) -> (r: usize)
        ensures
            r == match collection {
                Collection::Organizations => self@.organizations.len(),
                Collection::Members => self@.members.len(),
                Collection::Expenses => self@.expenses.len(),
            },
    {
        match collection {
            Collection::Organizations => self.organizations.len(),
            Collection::Members => self.members.len(),
            Collection::Expenses => self.expenses.len(),
        }
    }
}

} // verus!
