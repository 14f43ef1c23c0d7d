//! The three kinds of record, and the mathematical value each one stands for.
use crate::id::Id;
use vstd::prelude::*;

verus! {

/// What an organization keeps about each of its members.
#[derive(Clone, Debug, PartialEq, Eq)]
pub struct MemberSummary {
    pub id: Id,
    pub name: String,
}

/// The value of a summary.
pub struct MemberSummaryView {
    pub id: Id,
    pub name: Seq<char>,
}

impl View for MemberSummary {
    type V = MemberSummaryView;

    open spec fn view(&self) -> MemberSummaryView {
        MemberSummaryView { id: self.id, name: self.name@ }
    }
}

/// The values of a list of summaries, in order.
pub open spec fn summaries_view(list: Seq<MemberSummary>) -> Seq<MemberSummaryView> {
    list.map_values(|m: MemberSummary| m@)
}

/// An organization. `members` is written by member creation alone, one summary
/// appended for each member that was created and synchronized.
#[derive(Clone, Debug, PartialEq, Eq)]
pub struct Organization {
    pub id: Option<Id>,
    pub name: String,
    pub members: Vec<MemberSummary>,
    pub create_time: i64,
}

/// The value of an organization.
pub struct OrganizationView {
    pub id: Option<Id>,
    pub name: Seq<char>,
    pub members: Seq<MemberSummaryView>,
    pub create_time: i64,
}

impl View for Organization {
    type V = OrganizationView;

    open spec fn view(&self) -> OrganizationView {
        OrganizationView {
            id: self.id,
            name: self.name@,
            members: summaries_view(self.members@),
            create_time: self.create_time,
        }
    }
}

/// A member of one organization; `organization_id` never changes.
#[derive(Clone, Debug, PartialEq, Eq)]
pub struct Member {
    pub id: Option<Id>,
    pub organization_id: Id,
    pub name: String,
    pub active: bool,
    pub created_time: i64,
}

/// The value of a member.
pub struct MemberView {
    pub id: Option<Id>,
    pub organization_id: Id,
    pub name: Seq<char>,
    pub active: bool,
    pub created_time: i64,
}

impl MemberView {
    /// This member, stored under `id`.
    pub open spec fn with_id(self, id: Id) -> MemberView {
        MemberView { id: Some(id), ..self }
    }
}

impl View for Member {
    type V = MemberView;

    open spec fn view(&self) -> MemberView {
        MemberView {
            id: self.id,
            organization_id: self.organization_id,
            name: self.name@,
            active: self.active,
            created_time: self.created_time,
        }
    }
}

/// An expense paid by one member and split between some.
///
/// `amount_bits` is the bit pattern of the amount, a double; nothing here reads
/// it, it is stored and handed back as it came.
#[derive(Clone, Debug, PartialEq, Eq)]
pub struct Expense {
    pub id: Option<Id>,
    pub organization_id: Id,
    pub title: String,
    pub amount_bits: u64,
    pub paid_by: Id,
    pub split_between: Vec<Id>,
    pub notes: Option<String>,
    pub created_time: i64,
}

/// The value of an expense.
pub struct ExpenseView {
    pub id: Option<Id>,
    pub organization_id: Id,
    pub title: Seq<char>,
    pub amount_bits: u64,
    pub paid_by: Id,
    pub split_between: Seq<Id>,
    pub notes: Option<Seq<char>>,
    pub created_time: i64,
}

/// The value of an optional text.
pub open spec fn text_view(text: Option<String>) -> Option<Seq<char>> {
    match text {
        Some(s) => Some(s@),
        None => None,
    }
}

impl View for Expense {
    type V = ExpenseView;

    open spec fn view(&self) -> ExpenseView {
        ExpenseView {
            id: self.id,
            organization_id: self.organization_id,
            title: self.title@,
            amount_bits: self.amount_bits,
            paid_by: self.paid_by,
            split_between: self.split_between@,
            notes: text_view(self.notes),
            created_time: self.created_time,
        }
    }
}

/// The default of a member's `active` flag.
pub fn default_true() -> (r: bool)
    ensures
        r,
{
    true
}

/// Calls `DateTime::now` and hands out its milliseconds since the Unix epoch.
///
/// Trusted: nothing is claimed of the result, which is the clock's.
#[verifier::external_body]
fn current_time() -> i64 {
    mongodb::bson::DateTime::now().timestamp_millis()
}

/// The time a record is stamped with: the one it came with, else `now`.
pub fn stamp(given: Option<i64>, now: i64) -> (r: i64)
    ensures
        r == match given {
            Some(t) => t,
            None => now,
        },
{
    match given {
        Some(t) => t,
        None => now,
    }
}

/// The time a record is stamped with: the one it came with, else the clock's.
pub fn stamp_now(given: Option<i64>) -> (r: i64)
    ensures
        given matches Some(t) ==> r == t,
{
    stamp(given, current_time())
}

impl Organization {
    /// A new organization, not yet stored: no id, no members.
    pub fn new(name: String, create_time: i64) -> (r: Organization)
        ensures
            r@ == (OrganizationView { id: None, name: name@, members: Seq::empty(), create_time }),
    {
        let r = Organization { id: None, name, members: Vec::new(), create_time };
        assert(summaries_view(r.members@) =~= Seq::empty());
        r
    }
}

impl Member {
    /// A new member of `organization_id`, not yet stored; `active` defaults to true.
    pub fn new(organization_id: Id, name: String, active: Option<bool>, created_time: i64) -> (r:
        Member)
        ensures
            r@ == (MemberView {
                id: None,
                organization_id,
                name: name@,
                active: match active {
                    Some(a) => a,
                    None => true,
                },
                created_time,
            }),
    {
        let active = match active {
            Some(a) => a,
            None => default_true(),
        };
        Member { id: None, organization_id, name, active, created_time }
    }
}

} // verus!
