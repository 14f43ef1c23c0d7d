use hesapla::id::Id;
use hesapla::model::{default_true, stamp, stamp_now};

const SAMPLE: &str = "507f1f77bcf86cd799439011";
const SAMPLE_BYTES: [u8; 12] = [0x50, 0x7f, 0x1f, 0x77, 0xbc, 0xf8, 0x6c, 0xd7, 0x99, 0x43, 0x90, 0x11];

#[test]
fn parse_reads_the_bytes_of_a_lower_case_spelling() {
    let id = Id::parse("000102030405060708090a0b").expect("24 hex digits");
    assert_eq!(id.bytes, [0, 1, 2, 3, 4, 5, 6, 7, 8, 9, 10, 11]);
}

#[test]
fn parse_reads_two_digits_per_byte_high_digit_first() {
    let id = Id::parse(SAMPLE).expect("24 hex digits");
    assert_eq!(id.bytes, SAMPLE_BYTES);
}

#[test]
fn parse_takes_upper_case_and_mixed_case() {
    let upper = Id::parse("507F1F77BCF86CD799439011").expect("upper case");
    let mixed = Id::parse("507f1F77bcF86Cd799439011").expect("mixed case");
    assert_eq!(upper.bytes, SAMPLE_BYTES);
    assert_eq!(mixed.bytes, SAMPLE_BYTES);
}

#[test]
fn parse_refuses_what_is_not_an_identifier() {
    assert_eq!(Id::parse("not-an-id"), None);
    assert_eq!(Id::parse(""), None);
    // one digit short, one digit long, an odd number of digits
    assert_eq!(Id::parse("507f1f77bcf86cd79943901"), None);
    assert_eq!(Id::parse("507f1f77bcf86cd7994390112"), None);
    assert_eq!(Id::parse("507f1f77bcf86cd79943901122"), None);
    // 24 characters, one of them no hex digit
    assert_eq!(Id::parse("507f1f77bcf86cd79943901g"), None);
    assert_eq!(Id::parse("507f1f77bcf86cd7994390 1"), None);
    assert_eq!(Id::parse("-07f1f77bcf86cd799439011"), None);
}

#[test]
fn parse_refuses_characters_outside_ascii() {
    // 24 characters, more than 24 bytes
    assert_eq!(Id::parse("507f1f77bcf86cd79943901é"), None);
    // 24 bytes, fewer than 24 characters
    assert_eq!(Id::parse("507f1f77bcf86cd7994390é"), None);
    // full-width digits are no hex digits
    assert_eq!(Id::parse("５０7f1f77bcf86cd799439011"), None);
}

#[test]
fn to_hex_spells_in_lower_case() {
    let id = Id { bytes: SAMPLE_BYTES };
    assert_eq!(id.to_hex(), SAMPLE);
    let id = Id { bytes: [0xAB, 0xCD, 0xEF, 0, 0, 0, 0, 0, 0, 0, 0x0F, 0xF0] };
    assert_eq!(id.to_hex(), "abcdef000000000000000ff0");
}

#[test]
fn to_hex_of_zero_and_of_the_largest() {
    assert_eq!(Id { bytes: [0; 12] }.to_hex(), "000000000000000000000000");
    assert_eq!(Id { bytes: [0xFF; 12] }.to_hex(), "ffffffffffffffffffffffff");
}

#[test]
fn spelling_and_parsing_undo_each_other() {
    let id = Id { bytes: [1, 35, 69, 103, 137, 171, 205, 239, 16, 50, 84, 118] };
    assert_eq!(id.to_hex(), "0123456789abcdef10325476");
    assert_eq!(Id::parse(&id.to_hex()), Some(id));
    assert_eq!(Id::parse("0123456789ABCDEF10325476").map(|i| i.to_hex()).as_deref(), Some("0123456789abcdef10325476"));
}

#[test]
fn same_compares_every_byte() {
    let a = Id { bytes: SAMPLE_BYTES };
    let b = Id::parse(SAMPLE).expect("24 hex digits");
    assert!(a.same(&b));
    let mut last = SAMPLE_BYTES;
    last[11] ^= 1;
    assert!(!a.same(&Id { bytes: last }));
    let mut first = SAMPLE_BYTES;
    first[0] ^= 0x80;
    assert!(!a.same(&Id { bytes: first }));
}

#[test]
fn active_defaults_to_true() {
    assert!(default_true());
}

#[test]
fn stamp_keeps_a_given_time_and_fills_in_a_missing_one() {
    assert_eq!(stamp(Some(1_700_000_000_000), 5), 1_700_000_000_000);
    assert_eq!(stamp(None, 5), 5);
    assert_eq!(stamp(Some(-1), i64::MAX), -1);
    assert_eq!(stamp_now(Some(42)), 42);
    assert_eq!(stamp_now(Some(i64::MIN)), i64::MIN);
}

#[test]
fn stamp_now_reads_the_clock_when_no_time_is_given() {
    // 2020-01-01T00:00:00Z in milliseconds: any working clock is past it.
    assert!(stamp_now(None) > 1_577_836_800_000);
}
