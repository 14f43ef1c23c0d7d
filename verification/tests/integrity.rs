use hesapla::id::Id;
use hesapla::integrity::{collection, confirm};
use hesapla::protocol::{Collection, Failure, Fault, Reference, Reply};

fn id(byte: u8) -> Id {
    Id { bytes: [byte; 12] }
}

fn references() -> [Reference; 4] {
    [
        Reference::Organization,
        Reference::Payer,
        Reference::SplitMember(id(3)),
        Reference::Expense,
    ]
}

#[test]
fn each_reference_is_looked_up_in_its_collection() {
    assert_eq!(collection(Reference::Organization), Collection::Organizations);
    assert_eq!(collection(Reference::Payer), Collection::Members);
    assert_eq!(collection(Reference::SplitMember(id(3))), Collection::Members);
    assert_eq!(collection(Reference::Expense), Collection::Expenses);
}

#[test]
fn a_record_that_was_found_confirms_the_reference() {
    for reference in references() {
        assert_eq!(confirm(reference, Reply::Found(true)), Ok(()));
    }
}

#[test]
fn a_record_that_was_not_found_is_reported_not_found() {
    for reference in references() {
        assert_eq!(confirm(reference, Reply::Found(false)), Err(Failure::NotFound(reference)));
    }
}

#[test]
fn a_store_that_did_not_answer_is_not_reported_not_found() {
    for reference in references() {
        let no_answer = Err(Failure::Internal(Fault::Lookup(reference)));
        assert_eq!(confirm(reference, Reply::Failed), no_answer);
        assert_eq!(confirm(reference, Reply::Inserted(id(1))), no_answer);
        assert_eq!(confirm(reference, Reply::Updated(1)), no_answer);
        assert_eq!(confirm(reference, Reply::Deleted(0)), no_answer);
    }
}
