use hesapla::http::{
    index, respond_to_deletion, respond_to_expense, respond_to_failure, respond_to_member,
    respond_to_organization, Body, Response,
};
use hesapla::id::Id;
use hesapla::memory::MemoryStore;
use hesapla::model::{Expense, Member, MemberSummary, Organization};
use hesapla::protocol::{Collection, Failure, Fault, Reference, Reply, Request};
use hesapla::service::{
    add_expense, add_member, add_member_at, add_organization, add_organization_at, delete_expense,
};

const ABSENT: &str = "ffffffffffffffffffffffff";

fn issued(n: u8) -> Id {
    Id { bytes: [0, 0, 0, 0, 0, 0, 0, 0, 0, 0, 0, n] }
}

fn absent() -> Id {
    Id::parse(ABSENT).unwrap()
}

fn expense(organization_id: Id, paid_by: Id, split_between: Vec<Id>) -> Expense {
    Expense {
        id: None,
        organization_id,
        title: String::from("Lunch"),
        amount_bits: 20.0f64.to_bits(),
        paid_by,
        split_between,
        notes: None,
        created_time: 30,
    }
}

fn status(code: u16, success: bool, message: &str) -> Response {
    Response { code, body: Body::Status { success, message: String::from(message) } }
}

/// A store with the organization Acme and its members Ann and Bob.
fn acme() -> (MemoryStore, Id, Id, Id) {
    let mut store = MemoryStore::new();
    let acme = add_organization_at(&mut store, String::from("Acme"), 10).unwrap();
    let ann = add_member_at(&mut store, &acme.to_hex(), String::from("Ann"), None, 20).unwrap();
    let bob = add_member_at(&mut store, &acme.to_hex(), String::from("Bob"), None, 21).unwrap();
    (store, acme, ann.id, bob.id)
}

#[test]
fn a_member_is_added_to_an_organization_that_exists() {
    let mut store = MemoryStore::new();
    let acme = add_organization_at(&mut store, String::from("Acme"), 10).unwrap();
    let bob = add_member_at(&mut store, &acme.to_hex(), String::from("Bob"), None, 20);
    assert_eq!(bob, Ok(MemberSummary { id: issued(1), name: String::from("Bob") }));
    assert_eq!(
        store.member(&issued(1)),
        Some(&Member {
            id: Some(issued(1)),
            organization_id: acme,
            name: String::from("Bob"),
            active: true,
            created_time: 20,
        })
    );
    assert_eq!(respond_to_member(&bob).code, 201);
}

#[test]
fn a_member_is_not_added_to_an_organization_that_does_not_exist() {
    let mut store = MemoryStore::new();
    add_organization_at(&mut store, String::from("Acme"), 10).unwrap();
    let r = add_member_at(&mut store, ABSENT, String::from("Bob"), None, 20);
    assert_eq!(r, Err(Failure::NotFound(Reference::Organization)));
    assert_eq!(store.count(Collection::Members), 0);
    assert_eq!(store.organization(&issued(0)).unwrap().members, vec![]);
    assert_eq!(respond_to_member(&r), status(404, false, "Organization not found"));
}

#[test]
fn a_member_with_a_malformed_organization_id_is_a_bad_request() {
    let mut store = MemoryStore::new();
    add_organization_at(&mut store, String::from("Acme"), 10).unwrap();
    let r = add_member_at(&mut store, "not-an-id", String::from("Bob"), None, 20);
    assert_eq!(r, Err(Failure::InvalidArgument(Reference::Organization)));
    assert_eq!(store.count(Collection::Members), 0);
    assert_eq!(respond_to_member(&r), status(400, false, "Invalid organization_id format"));
}

#[test]
fn a_member_that_the_store_refuses_is_an_internal_error() {
    let mut store = MemoryStore::new();
    let acme = add_organization_at(&mut store, String::from("Acme"), 10).unwrap();
    // a member stands where the store's next own id would go
    let squatter = Member {
        id: Some(issued(1)),
        organization_id: acme,
        name: String::from("Ann"),
        active: true,
        created_time: 1,
    };
    assert_eq!(store.answer(Request::InsertMember(squatter)), Reply::Inserted(issued(1)));
    let r = add_member_at(&mut store, &acme.to_hex(), String::from("Bob"), None, 20);
    assert_eq!(r, Err(Failure::Internal(Fault::Insert)));
    assert_eq!(store.count(Collection::Members), 1);
    assert_eq!(store.organization(&acme).unwrap().members, vec![]);
    assert_eq!(respond_to_member(&r), status(500, false, "Database insert error"));
}

#[test]
fn a_new_organization_has_no_members_until_one_is_added() {
    let mut store = MemoryStore::new();
    let acme = add_organization_at(&mut store, String::from("Acme"), 10).unwrap();
    assert_eq!(
        store.organization(&acme),
        Some(&Organization {
            id: Some(acme),
            name: String::from("Acme"),
            members: vec![],
            create_time: 10,
        })
    );
    let bob = add_member_at(&mut store, &acme.to_hex(), String::from("Bob"), None, 20).unwrap();
    let stored = store.organization(&acme).unwrap();
    assert_eq!(stored.members, vec![MemberSummary { id: bob.id, name: String::from("Bob") }]);
    assert_eq!(stored.members.len(), 1);
    assert_eq!(store.member(&bob.id).unwrap().name, "Bob");
}

#[test]
fn summaries_stand_in_the_order_the_members_were_added() {
    let (mut store, acme, ann, bob) = acme();
    let bolt = add_organization_at(&mut store, String::from("Bolt"), 11).unwrap();
    let cid = add_member_at(&mut store, &bolt.to_hex(), String::from("Cid"), Some(false), 22);
    let cid = cid.unwrap().id;
    let names = |store: &MemoryStore, id: &Id| -> Vec<(Id, String)> {
        store.organization(id).unwrap().members.iter().map(|m| (m.id, m.name.clone())).collect()
    };
    assert_eq!(
        names(&store, &acme),
        vec![(ann, String::from("Ann")), (bob, String::from("Bob"))]
    );
    assert_eq!(names(&store, &bolt), vec![(cid, String::from("Cid"))]);
    assert!(!store.member(&cid).unwrap().active);
}

#[test]
fn an_expense_with_all_its_references_is_written() {
    let (mut store, acme, ann, bob) = acme();
    let e = expense(acme, bob, vec![ann, bob]);
    let r = add_expense(&mut store, e.clone());
    assert_eq!(r, Ok(issued(3)));
    assert_eq!(store.expense(&issued(3)), Some(&Expense { id: Some(issued(3)), ..e }));
    assert_eq!(respond_to_expense(&r), status(201, true, "Expense added successfully"));
}

#[test]
fn an_expense_split_between_nobody_is_written() {
    let (mut store, acme, _, bob) = acme();
    assert_eq!(add_expense(&mut store, expense(acme, bob, vec![])), Ok(issued(3)));
    assert_eq!(store.count(Collection::Expenses), 1);
}

#[test]
fn an_expense_names_the_split_member_that_is_missing() {
    let (mut store, acme, _, bob) = acme();
    let r = add_expense(&mut store, expense(acme, bob, vec![bob, absent()]));
    assert_eq!(r, Err(Failure::NotFound(Reference::SplitMember(absent()))));
    assert_eq!(store.count(Collection::Expenses), 0);
    assert_eq!(
        respond_to_expense(&r),
        status(404, false, "Member in split_between not found: ffffffffffffffffffffffff")
    );
}

#[test]
fn an_expense_names_the_first_missing_split_member_whatever_follows() {
    let (mut store, acme, ann, bob) = acme();
    let other = Id::parse("eeeeeeeeeeeeeeeeeeeeeeee").unwrap();
    let named = Err(Failure::NotFound(Reference::SplitMember(absent())));
    assert_eq!(add_expense(&mut store, expense(acme, bob, vec![absent(), bob])), named);
    assert_eq!(add_expense(&mut store, expense(acme, bob, vec![ann, absent(), other])), named);
    assert_eq!(add_expense(&mut store, expense(acme, bob, vec![ann, absent(), bob])), named);
    assert_eq!(
        add_expense(&mut store, expense(acme, bob, vec![other, absent()])),
        Err(Failure::NotFound(Reference::SplitMember(other)))
    );
    assert_eq!(store.count(Collection::Expenses), 0);
}

#[test]
fn an_expense_is_checked_organization_first_then_payer_then_split_list() {
    let (mut store, acme, _, bob) = acme();
    let all_missing = expense(absent(), absent(), vec![absent()]);
    assert_eq!(
        add_expense(&mut store, all_missing),
        Err(Failure::NotFound(Reference::Organization))
    );
    let r = add_expense(&mut store, expense(acme, absent(), vec![absent()]));
    assert_eq!(r, Err(Failure::NotFound(Reference::Payer)));
    assert_eq!(respond_to_expense(&r), status(404, false, "Paid_by member not found"));
    // an organization is no member, and a member no organization
    assert_eq!(
        add_expense(&mut store, expense(bob, bob, vec![])),
        Err(Failure::NotFound(Reference::Organization))
    );
    assert_eq!(
        add_expense(&mut store, expense(acme, acme, vec![])),
        Err(Failure::NotFound(Reference::Payer))
    );
    assert_eq!(store.count(Collection::Expenses), 0);
}

#[test]
fn deleting_twice_succeeds_then_finds_nothing() {
    let (mut store, acme, ann, bob) = acme();
    let id = add_expense(&mut store, expense(acme, bob, vec![ann])).unwrap();
    let first = delete_expense(&mut store, &id.to_hex());
    let second = delete_expense(&mut store, &id.to_hex());
    assert_eq!(first, Ok(()));
    assert_eq!(second, Err(Failure::NotFound(Reference::Expense)));
    assert_eq!(respond_to_deletion(&first), status(200, true, "Expense deleted successfully"));
    assert_eq!(respond_to_deletion(&second), status(404, false, "Expense not found"));
}

#[test]
fn deleting_an_expense_touches_nothing_else() {
    let (mut store, acme, ann, bob) = acme();
    let kept = add_expense(&mut store, expense(acme, bob, vec![ann])).unwrap();
    let gone = add_expense(&mut store, expense(acme, ann, vec![bob])).unwrap();
    let organization = store.organization(&acme).cloned();
    assert_eq!(delete_expense(&mut store, &gone.to_hex().to_uppercase()), Ok(()));
    assert_eq!(store.expense(&gone), None);
    assert_eq!(store.expense(&kept).map(|e| e.paid_by), Some(bob));
    assert_eq!(store.organization(&acme).cloned(), organization);
    assert_eq!(store.count(Collection::Members), 2);
    assert_eq!(store.count(Collection::Organizations), 1);
}

#[test]
fn deleting_with_a_malformed_id_is_a_bad_request() {
    let (mut store, acme, ann, bob) = acme();
    add_expense(&mut store, expense(acme, bob, vec![ann])).unwrap();
    let r = delete_expense(&mut store, "not-an-id");
    assert_eq!(r, Err(Failure::InvalidArgument(Reference::Expense)));
    assert_eq!(store.count(Collection::Expenses), 1);
    let response = respond_to_deletion(&r);
    assert_eq!(response, status(400, false, "Invalid expense_id format"));
    assert_ne!(response.code, 404);
    assert_ne!(response.code, 500);
}

#[test]
fn deleting_an_expense_that_never_was_finds_nothing() {
    let mut store = MemoryStore::new();
    assert_eq!(delete_expense(&mut store, ABSENT), Err(Failure::NotFound(Reference::Expense)));
}

#[test]
fn the_whole_course_of_an_expense() {
    let mut store = MemoryStore::new();

    let acme = add_organization(&mut store, String::from("Acme"), None);
    assert_eq!(
        respond_to_organization(&acme),
        status(201, true, "Organization (000000000000000000000000) created successfully")
    );
    let acme = acme.unwrap();

    let bob = add_member(&mut store, &acme.to_hex(), String::from("Bob"), None, None);
    assert_eq!(
        respond_to_member(&bob),
        status(201, true, "Member (000000000000000000000001) added successfully")
    );
    let bob = bob.unwrap().id;

    let lunch = add_expense(&mut store, expense(acme, bob, vec![bob]));
    assert_eq!(respond_to_expense(&lunch).code, 201);
    let lunch = lunch.unwrap().to_hex();

    assert_eq!(respond_to_deletion(&delete_expense(&mut store, &lunch)).code, 200);
    assert_eq!(respond_to_deletion(&delete_expense(&mut store, &lunch)).code, 404);
}

#[test]
fn the_clock_stamps_what_came_without_a_time() {
    let mut store = MemoryStore::new();
    let acme = add_organization(&mut store, String::from("Acme"), None).unwrap();
    let bolt = add_organization(&mut store, String::from("Bolt"), Some(5)).unwrap();
    let ann = add_member(&mut store, &acme.to_hex(), String::from("Ann"), None, None).unwrap();
    let bob = add_member(&mut store, &acme.to_hex(), String::from("Bob"), None, Some(6)).unwrap();
    assert!(store.organization(&acme).unwrap().create_time > 1_577_836_800_000);
    assert_eq!(store.organization(&bolt).unwrap().create_time, 5);
    assert!(store.member(&ann.id).unwrap().created_time > 1_577_836_800_000);
    assert_eq!(store.member(&bob.id).unwrap().created_time, 6);
}

#[test]
fn an_organization_that_the_store_refuses_is_a_bad_request() {
    let r: Result<Id, Failure> = Err(Failure::Internal(Fault::Insert));
    assert_eq!(
        respond_to_organization(&r),
        status(400, false, "Organization could not be created")
    );
}

#[test]
fn the_root_answers_with_the_flag() {
    assert_eq!(index(), Response { code: 200, body: Body::Flag(true) });
}

#[test]
fn every_failure_has_its_code_and_message() {
    let id = Id::parse("0123456789abcdef01234567").unwrap();
    let cases = [
        (Failure::InvalidArgument(Reference::Organization), 400, "Invalid organization_id format"),
        (Failure::InvalidArgument(Reference::Payer), 400, "Invalid paid_by format"),
        (
            Failure::InvalidArgument(Reference::SplitMember(id)),
            400,
            "Invalid split_between format: 0123456789abcdef01234567",
        ),
        (Failure::InvalidArgument(Reference::Expense), 400, "Invalid expense_id format"),
        (Failure::NotFound(Reference::Organization), 404, "Organization not found"),
        (Failure::NotFound(Reference::Payer), 404, "Paid_by member not found"),
        (
            Failure::NotFound(Reference::SplitMember(id)),
            404,
            "Member in split_between not found: 0123456789abcdef01234567",
        ),
        (Failure::NotFound(Reference::Expense), 404, "Expense not found"),
        (
            Failure::Internal(Fault::Lookup(Reference::Organization)),
            500,
            "Database lookup failed for organization",
        ),
        (
            Failure::Internal(Fault::Lookup(Reference::Payer)),
            500,
            "Database lookup failed for paid_by member",
        ),
        (
            Failure::Internal(Fault::Lookup(Reference::SplitMember(id))),
            500,
            "Database lookup failed for member in split_between: 0123456789abcdef01234567",
        ),
        (
            Failure::Internal(Fault::Lookup(Reference::Expense)),
            500,
            "Database lookup failed for expense",
        ),
        (Failure::Internal(Fault::Insert), 500, "Database insert error"),
        (Failure::Internal(Fault::Delete), 500, "Database delete error"),
    ];
    for (failure, code, message) in cases {
        assert_eq!(respond_to_failure(failure), status(code, false, message));
    }
}
