//! What the caller is told: a status code and a body, for each way an
//! operation can end.
use crate::id::{encode_hex, is_hex_id, parsed, Id};
use crate::memory::{has_expense, StoreView};
use crate::model::{MemberSummary, MemberSummaryView};
use crate::protocol::{Failure, Fault, Reference};
use crate::service::delete_expense_spec;
use vstd::prelude::*;

verus! {

/// The status codes that the operations answer with.
pub const OK: u16 = 200;

pub const CREATED: u16 = 201;

pub const BAD_REQUEST: u16 = 400;

pub const NOT_FOUND: u16 = 404;

pub const INTERNAL_SERVER_ERROR: u16 = 500;

/// The body of a response: the bare flag `success`, or a `status`, which is
/// `success` or `error`, with a `message`.
#[derive(Debug, Clone, PartialEq, Eq)]
pub enum Body {
    Flag(bool),
    Status { success: bool, message: String },
}

/// The value of a body.
pub enum BodyView {
    Flag(bool),
    Status { success: bool, message: Seq<char> },
}

impl View for Body {
    type V = BodyView;

    open spec fn view(&self) -> BodyView {
        match *self {
            Body::Flag(flag) => BodyView::Flag(flag),
            Body::Status { success, message } => BodyView::Status { success, message: message@ },
        }
    }
}

/// A response: the status code and the body.
#[derive(Debug, Clone, PartialEq, Eq)]
pub struct Response {
    pub code: u16,
    pub body: Body,
}

/// The value of a response.
pub struct ResponseView {
    pub code: u16,
    pub body: BodyView,
}

impl View for Response {
    type V = ResponseView;

    open spec fn view(&self) -> ResponseView {
        ResponseView { code: self.code, body: self.body@ }
    }
}

/// The response that reports success with `message`.
pub open spec fn success(code: u16, message: Seq<char>) -> ResponseView {
    ResponseView { code, body: BodyView::Status { success: true, message } }
}

/// The response that reports an error with `message`.
pub open spec fn error(code: u16, message: Seq<char>) -> ResponseView {
    ResponseView { code, body: BodyView::Status { success: false, message } }
}

/// The status code of a failure: 400 for a malformed identifier, 404 for a
/// reference to nothing, 500 for a store that gave no answer.
pub open spec fn failure_code(failure: Failure) -> u16 {
    match failure {
        Failure::InvalidArgument(_) => BAD_REQUEST,
        Failure::NotFound(_) => NOT_FOUND,
        Failure::Internal(_) => INTERNAL_SERVER_ERROR,
    }
}

/// The message of a failure. One about a member of a split list ends with the
/// spelling of that member's id.
pub open spec fn failure_message(failure: Failure) -> Seq<char> {
    match failure {
        Failure::InvalidArgument(Reference::Organization) => "Invalid organization_id format"@,
        Failure::InvalidArgument(Reference::Payer) => "Invalid paid_by format"@,
        Failure::InvalidArgument(Reference::SplitMember(id)) => "Invalid split_between format: "@
            + encode_hex(id@),
        Failure::InvalidArgument(Reference::Expense) => "Invalid expense_id format"@,
        Failure::NotFound(Reference::Organization) => "Organization not found"@,
        Failure::NotFound(Reference::Payer) => "Paid_by member not found"@,
        Failure::NotFound(Reference::SplitMember(id)) => "Member in split_between not found: "@
            + encode_hex(id@),
        Failure::NotFound(Reference::Expense) => "Expense not found"@,
        Failure::Internal(Fault::Lookup(Reference::Organization)) =>
            "Database lookup failed for organization"@,
        Failure::Internal(Fault::Lookup(Reference::Payer)) =>
            "Database lookup failed for paid_by member"@,
        Failure::Internal(Fault::Lookup(Reference::SplitMember(id))) =>
            "Database lookup failed for member in split_between: "@ + encode_hex(id@),
        Failure::Internal(Fault::Lookup(Reference::Expense)) =>
            "Database lookup failed for expense"@,
        Failure::Internal(Fault::Insert) => "Database insert error"@,
        Failure::Internal(Fault::Delete) => "Database delete error"@,
    }
}

/// The response to a failure.
pub open spec fn failure_response(failure: Failure) -> ResponseView {
    error(failure_code(failure), failure_message(failure))
}

/// The response to the creation of an organization: 201 with the new id in
/// the message, or 400 whatever went wrong.
pub open spec fn organization_response(r: Result<Id, Failure>) -> ResponseView {
    match r {
        Ok(id) => success(
            CREATED,
            "Organization ("@ + encode_hex(id@) + ") created successfully"@,
        ),
        Err(_) => error(BAD_REQUEST, "Organization could not be created"@),
    }
}

/// The response to the creation of a member: 201 with the new id in the
/// message, or the response to the failure.
pub open spec fn member_response(r: Result<MemberSummaryView, Failure>) -> ResponseView {
    match r {
        Ok(summary) => success(
            CREATED,
            "Member ("@ + encode_hex(summary.id@) + ") added successfully"@,
        ),
        Err(failure) => failure_response(failure),
    }
}

/// The response to the writing of an expense: 201, or the response to the
/// failure.
pub open spec fn expense_response(r: Result<Id, Failure>) -> ResponseView {
    match r {
        Ok(_) => success(CREATED, "Expense added successfully"@),
        Err(failure) => failure_response(failure),
    }
}

/// The response to the deletion of an expense: 200, or the response to the
/// failure.
pub open spec fn deletion_response(r: Result<(), Failure>) -> ResponseView {
    match r {
        Ok(_) => success(OK, "Expense deleted successfully"@),
        Err(failure) => failure_response(failure),
    }
}

/// The response of the root: 200 and the flag, set.
pub fn index() -> (r: Response)
    ensures
        r@ == (ResponseView { code: OK, body: BodyView::Flag(true) }),
{
    Response { code: OK, body: Body::Flag(true) }
}

fn respond(success: bool, code: u16, message: String) -> (r: Response)
    ensures
        r@ == (ResponseView { code, body: BodyView::Status { success, message: message@ } }),
{
    Response { code, body: Body::Status { success, message } }
}

/// `text`, followed by the spelling of `id`.
fn with_id(text: &str, id: &Id) -> (r: String)
    ensures
        r@ == text@ + encode_hex(id@),
{
    let hex = id.to_hex();
    String::from_str(text).concat(hex.as_str())
}

/// The response to a failure.
pub fn respond_to_failure(failure: Failure) -> (r: Response)
    ensures
        r@ == failure_response(failure),
{
    match failure {
        Failure::InvalidArgument(reference) => {
            let message = match reference {
                Reference::Organization => String::from_str("Invalid organization_id format"),
                Reference::Payer => String::from_str("Invalid paid_by format"),
                Reference::SplitMember(id) => with_id("Invalid split_between format: ", &id),
                Reference::Expense => String::from_str("Invalid expense_id format"),
            };
            respond(false, BAD_REQUEST, message)
        },
        Failure::NotFound(reference) => {
            let message = match reference {
                Reference::Organization => String::from_str("Organization not found"),
                Reference::Payer => String::from_str("Paid_by member not found"),
                Reference::SplitMember(id) => with_id("Member in split_between not found: ", &id),
                Reference::Expense => String::from_str("Expense not found"),
            };
            respond(false, NOT_FOUND, message)
        },
        Failure::Internal(fault) => {
            let message = match fault {
                Fault::Lookup(Reference::Organization) => String::from_str(
                    "Database lookup failed for organization",
                ),
                Fault::Lookup(Reference::Payer) => String::from_str(
                    "Database lookup failed for paid_by member",
                ),
                Fault::Lookup(Reference::SplitMember(id)) => with_id(
                    "Database lookup failed for member in split_between: ",
                    &id,
                ),
                Fault::Lookup(Reference::Expense) => String::from_str(
                    "Database lookup failed for expense",
                ),
                Fault::Insert => String::from_str("Database insert error"),
                Fault::Delete => String::from_str("Database delete error"),
            };
            respond(false, INTERNAL_SERVER_ERROR, message)
        },
    }
}

/// The response to the creation of an organization.
pub fn respond_to_organization(r: &Result<Id, Failure>) -> (response: Response)
    ensures
        response@ == organization_response(*r),
{
    match r {
        Ok(id) => {
            let message = with_id("Organization (", id).concat(") created successfully");
            respond(true, CREATED, message)
        },
        Err(_) => respond(false, BAD_REQUEST, String::from_str("Organization could not be created")),
    }
}

/// The response to the creation of a member.
pub fn respond_to_member(r: &Result<MemberSummary, Failure>) -> (response: Response)
    ensures
        response@ == member_response(
            match *r {
                Ok(summary) => Ok(summary@),
                Err(failure) => Err(failure),
            },
        ),
{
    match r {
        Ok(summary) => {
            let message = with_id("Member (", &summary.id).concat(") added successfully");
            respond(true, CREATED, message)
        },
        Err(failure) => respond_to_failure(*failure),
    }
}

/// The response to the writing of an expense.
pub fn respond_to_expense(r: &Result<Id, Failure>) -> (response: Response)
    ensures
        response@ == expense_response(*r),
{
    match r {
        Ok(_) => respond(true, CREATED, String::from_str("Expense added successfully")),
        Err(failure) => respond_to_failure(*failure),
    }
}

/// The response to the deletion of an expense.
pub fn respond_to_deletion(r: &Result<(), Failure>) -> (response: Response)
    ensures
        response@ == deletion_response(*r),
{
    match r {
        Ok(_) => respond(true, OK, String::from_str("Expense deleted successfully")),
        Err(failure) => respond_to_failure(*failure),
    }
}

/// A malformed identifier is a bad request: the response to it is 400, not
/// 404 and not 500.
pub proof fn law_malformed_is_bad_request(reference: Reference)
    ensures
        failure_response(Failure::InvalidArgument(reference)).code == BAD_REQUEST,
        deletion_response(Err(Failure::InvalidArgument(reference))).code == BAD_REQUEST,
        member_response(Err(Failure::InvalidArgument(reference))).code == BAD_REQUEST,
{
}

/// Deleting with a malformed id is answered 400 whatever the store holds, and
/// leaves the store as it was; with a well-formed id it is answered 200 or
/// 404, by whether the store held the expense.
pub proof fn law_delete_by_malformed_id_is_bad_request(s: StoreView, id: Seq<char>)
    ensures
        !is_hex_id(id) ==> {
            &&& deletion_response(delete_expense_spec(s, id).1).code == BAD_REQUEST
            &&& delete_expense_spec(s, id).0 == s
        },
        is_hex_id(id) ==> deletion_response(delete_expense_spec(s, id).1).code == if has_expense(
            s,
            parsed(id),
        ) {
            OK
        } else {
            NOT_FOUND
        },
{
}

} // verus!
