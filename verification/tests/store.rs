use hesapla::id::Id;
use hesapla::memory::MemoryStore;
use hesapla::model::{Expense, Member, MemberSummary, Organization};
use hesapla::protocol::{Collection, Reply, Request};

fn id(byte: u8) -> Id {
    Id { bytes: [byte; 12] }
}

fn issued(n: u8) -> Id {
    Id { bytes: [0, 0, 0, 0, 0, 0, 0, 0, 0, 0, 0, n] }
}

fn organization(id: Option<Id>, name: &str) -> Organization {
    Organization { id, name: String::from(name), members: vec![], create_time: 1 }
}

fn member(id: Option<Id>, organization_id: Id, name: &str) -> Member {
    Member { id, organization_id, name: String::from(name), active: true, created_time: 2 }
}

fn expense(id: Option<Id>) -> Expense {
    Expense {
        id,
        organization_id: issued(0),
        title: String::from("Lunch"),
        amount_bits: 20.0f64.to_bits(),
        paid_by: issued(1),
        split_between: vec![issued(1)],
        notes: Some(String::from("with dessert")),
        created_time: 3,
    }
}

#[test]
fn a_new_store_holds_nothing() {
    let store = MemoryStore::new();
    assert_eq!(store.count(Collection::Organizations), 0);
    assert_eq!(store.count(Collection::Members), 0);
    assert_eq!(store.count(Collection::Expenses), 0);
    assert!(!store.contains(Collection::Organizations, &issued(0)));
    assert_eq!(store.organization(&issued(0)), None);
    assert_eq!(store.member(&issued(0)), None);
    assert_eq!(store.expense(&issued(0)), None);
}

#[test]
fn the_store_assigns_ids_by_counting() {
    let mut store = MemoryStore::new();
    assert_eq!(
        store.answer(Request::InsertOrganization(organization(None, "Acme"))),
        Reply::Inserted(issued(0))
    );
    assert_eq!(
        store.answer(Request::InsertMember(member(None, issued(0), "Bob"))),
        Reply::Inserted(issued(1))
    );
    assert_eq!(store.answer(Request::InsertExpense(expense(None))), Reply::Inserted(issued(2)));
    assert_eq!(issued(2).to_hex(), "000000000000000000000002");
}

#[test]
fn the_store_counts_past_one_byte() {
    let mut store = MemoryStore::new();
    let mut last = Reply::Failed;
    for _ in 0..=258 {
        last = store.answer(Request::InsertOrganization(organization(None, "Acme")));
    }
    assert_eq!(last, Reply::Inserted(Id { bytes: [0, 0, 0, 0, 0, 0, 0, 0, 0, 0, 1, 2] }));
    assert_eq!(store.count(Collection::Organizations), 259);
}

#[test]
fn an_insert_keeps_the_id_a_record_came_with() {
    let mut store = MemoryStore::new();
    let reply = store.answer(Request::InsertOrganization(organization(Some(id(7)), "Acme")));
    assert_eq!(reply, Reply::Inserted(id(7)));
    assert_eq!(store.organization(&id(7)), Some(&organization(Some(id(7)), "Acme")));
}

#[test]
fn an_insert_under_a_taken_id_is_refused() {
    let mut store = MemoryStore::new();
    store.answer(Request::InsertOrganization(organization(Some(id(7)), "Acme")));
    let reply = store.answer(Request::InsertOrganization(organization(Some(id(7)), "Other")));
    assert_eq!(reply, Reply::Failed);
    assert_eq!(store.count(Collection::Organizations), 1);
    assert_eq!(store.organization(&id(7)).map(|o| o.name.as_str()), Some("Acme"));
}

#[test]
fn an_assigned_id_that_is_taken_is_refused_and_spent() {
    let mut store = MemoryStore::new();
    store.answer(Request::InsertMember(member(Some(issued(0)), id(1), "Ann")));
    // the store's first own id is taken: refused, and the next insert gets the second
    assert_eq!(store.answer(Request::InsertMember(member(None, id(1), "Bob"))), Reply::Failed);
    assert_eq!(
        store.answer(Request::InsertMember(member(None, id(1), "Cid"))),
        Reply::Inserted(issued(1))
    );
    assert_eq!(store.count(Collection::Members), 2);
}

#[test]
fn the_same_id_may_stand_in_two_collections() {
    let mut store = MemoryStore::new();
    assert_eq!(
        store.answer(Request::InsertOrganization(organization(Some(id(7)), "Acme"))),
        Reply::Inserted(id(7))
    );
    assert_eq!(
        store.answer(Request::InsertMember(member(Some(id(7)), id(7), "Bob"))),
        Reply::Inserted(id(7))
    );
    assert_eq!(store.answer(Request::InsertExpense(expense(Some(id(7))))), Reply::Inserted(id(7)));
}

#[test]
fn a_lookup_answers_for_its_own_collection() {
    let mut store = MemoryStore::new();
    store.answer(Request::InsertMember(member(Some(id(7)), id(1), "Bob")));
    let find = |collection| Request::Find { collection, id: id(7) };
    assert_eq!(store.answer(find(Collection::Members)), Reply::Found(true));
    assert_eq!(store.answer(find(Collection::Organizations)), Reply::Found(false));
    assert_eq!(store.answer(find(Collection::Expenses)), Reply::Found(false));
    assert!(store.contains(Collection::Members, &id(7)));
    assert!(!store.contains(Collection::Members, &id(8)));
    assert_eq!(store.member(&id(7)), Some(&member(Some(id(7)), id(1), "Bob")));
}

#[test]
fn an_append_adds_to_the_end_of_one_list() {
    let mut store = MemoryStore::new();
    store.answer(Request::InsertOrganization(organization(Some(id(1)), "Acme")));
    store.answer(Request::InsertOrganization(organization(Some(id(2)), "Bolt")));
    let ann = MemberSummary { id: id(10), name: String::from("Ann") };
    let bob = MemberSummary { id: id(11), name: String::from("Bob") };
    let append = |summary: &MemberSummary| Request::AppendMember {
        organization_id: id(1),
        summary: summary.clone(),
    };
    assert_eq!(store.answer(append(&ann)), Reply::Updated(1));
    assert_eq!(store.answer(append(&bob)), Reply::Updated(1));
    assert_eq!(store.organization(&id(1)).unwrap().members, vec![ann.clone(), bob.clone()]);
    assert_eq!(store.organization(&id(2)).unwrap().members, vec![]);
    // appended again, a summary stands twice
    assert_eq!(store.answer(append(&ann)), Reply::Updated(1));
    assert_eq!(store.organization(&id(1)).unwrap().members, vec![ann.clone(), bob, ann]);
    assert_eq!(store.count(Collection::Organizations), 2);
}

#[test]
fn an_append_to_no_organization_matches_nothing() {
    let mut store = MemoryStore::new();
    store.answer(Request::InsertOrganization(organization(Some(id(1)), "Acme")));
    let reply = store.answer(Request::AppendMember {
        organization_id: id(2),
        summary: MemberSummary { id: id(10), name: String::from("Ann") },
    });
    assert_eq!(reply, Reply::Updated(0));
    assert_eq!(store.organization(&id(1)).unwrap().members, vec![]);
}

#[test]
fn a_delete_removes_one_expense_and_no_other() {
    let mut store = MemoryStore::new();
    store.answer(Request::InsertExpense(expense(Some(id(1)))));
    store.answer(Request::InsertExpense(expense(Some(id(2)))));
    store.answer(Request::InsertExpense(expense(Some(id(3)))));
    assert_eq!(store.answer(Request::DeleteExpense(id(2))), Reply::Deleted(1));
    assert_eq!(store.count(Collection::Expenses), 2);
    assert_eq!(store.expense(&id(1)), Some(&expense(Some(id(1)))));
    assert_eq!(store.expense(&id(2)), None);
    assert_eq!(store.expense(&id(3)), Some(&expense(Some(id(3)))));
    assert_eq!(store.answer(Request::DeleteExpense(id(2))), Reply::Deleted(0));
    assert_eq!(store.count(Collection::Expenses), 2);
}

#[test]
fn an_expense_is_stored_as_it_came() {
    let mut store = MemoryStore::new();
    store.answer(Request::InsertExpense(expense(None)));
    let stored = store.expense(&issued(0)).expect("the expense");
    assert_eq!(stored, &expense(Some(issued(0))));
    assert_eq!(f64::from_bits(stored.amount_bits), 20.0);
}
