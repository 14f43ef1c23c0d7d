//! Creating an organization: one insert. A new organization has no members;
//! its list grows only as members are created.
use crate::id::Id;
use crate::model::{Organization, OrganizationView};
use crate::protocol::{insert_result, Failure, Fault, Reply, Request, RequestView};
use vstd::prelude::*;

verus! {

/// The organization that a creation inserts: no id, for the store to assign
/// one, and no members.
pub open spec fn new_organization(name: Seq<char>, create_time: i64) -> OrganizationView {
    OrganizationView { id: None, name, members: Seq::empty(), create_time }
}

/// The creation of one organization, while its insert is out.
#[derive(Debug)]
pub struct OrganizationCreation {}

impl OrganizationCreation {
    /// Begins the creation of an organization named `name`.
    pub fn start(name: String, create_time: i64) -> (r: (OrganizationCreation, Request))
        ensures
            r.1@ == RequestView::InsertOrganization(new_organization(name@, create_time)),
    {
        let organization = Organization::new(name, create_time);
        (OrganizationCreation {  }, Request::InsertOrganization(organization))
    }

    /// Takes the store's reply to the insert, and ends the creation.
    pub fn finish(self, reply: Reply) -> (r: Result<Id, Failure>)
        ensures
            r == insert_result(reply),
    {
        match reply {
            Reply::Inserted(id) => Ok(id),
            _ => Err(Failure::Internal(Fault::Insert)),
        }
    }
}

} // verus!
