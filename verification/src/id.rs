//! Identifiers: twelve opaque bytes with a canonical 24-digit hex spelling.
use mongodb::bson::oid::ObjectId;
use vstd::prelude::*;

verus! {

/// The error type of `ObjectId::parse_str`; carried through, never inspected.
#[verifier::external_type_specification]
#[verifier::external_body]
pub struct ExOidError(mongodb::bson::oid::Error);

/// The number of bytes in an identifier.
pub const ID_BYTES: usize = 12;

/// The number of hex digits in an identifier's spelling.
pub const ID_DIGITS: usize = 24;

/// The value of a hex digit, upper or lower case; `None` for any other character.
pub open spec fn digit_value(c: char) -> Option<u8> {
    if '0' <= c && c <= '9' {
        Some((c as u32 - '0' as u32) as u8)
    } else if 'a' <= c && c <= 'f' {
        Some((c as u32 - 'a' as u32 + 10) as u8)
    } else if 'A' <= c && c <= 'F' {
        Some((c as u32 - 'A' as u32 + 10) as u8)
    } else {
        None
    }
}

/// The lower-case hex digit that spells a value below sixteen.
pub open spec fn digit_char(v: int) -> char {
    if 0 <= v < 10 {
        ('0' as u32 + v) as char
    } else {
        ('a' as u32 + v - 10) as char
    }
}

/// Whether `s` spells an identifier: exactly 24 hex digits.
pub open spec fn is_hex_id(s: Seq<char>) -> bool {
    &&& s.len() == ID_DIGITS
    &&& forall|i: int| 0 <= i < s.len() ==> (#[trigger] digit_value(s[i])) is Some
}

/// The bytes that a spelling stands for: two digits per byte, high digit first.
pub open spec fn decode_hex(s: Seq<char>) -> Seq<u8> {
    Seq::new(
        ID_BYTES as nat,
        |i: int| (16 * digit_value(s[2 * i]).unwrap() + digit_value(s[2 * i + 1]).unwrap()) as u8,
    )
}

/// The canonical spelling of twelve bytes: lower-case hex, high digit first.
pub open spec fn encode_hex(b: Seq<u8>) -> Seq<char> {
    Seq::new(
        ID_DIGITS as nat,
        |i: int| if i % 2 == 0 { digit_char(b[i / 2] as int / 16) } else { digit_char(b[i / 2] as int % 16) },
    )
}

/// An identifier of a stored record.
#[derive(Clone, Copy, Debug, PartialEq, Eq, Hash)]
pub struct Id {
    pub bytes: [u8; 12],
}

impl View for Id {
    type V = Seq<u8>;

    open spec fn view(&self) -> Seq<u8> {
        self.bytes@
    }
}

/// The identifier that a well-formed spelling stands for: the one whose bytes
/// are `decode_hex(s)`.
pub open spec fn parsed(s: Seq<char>) -> Id {
    Id { bytes: choose|b: [u8; 12]| b@ == decode_hex(s) }
}

/// Calls `ObjectId::parse_str` and hands out the bytes of the identifier it read.
///
/// Trusted: the call succeeds exactly on 24 hex digits of either case, and the
/// bytes are those digits taken in pairs, high digit first.
#[verifier::external_body]
fn parse_object_id(s: &str) -> (r: Result<[u8; 12], mongodb::bson::oid::Error>)
    ensures
        r is Ok <==> is_hex_id(s@),
        r matches Ok(b) ==> b@ == decode_hex(s@),
{
    match ObjectId::parse_str(s) {
        Ok(oid) => Ok(oid.bytes()),
        Err(e) => Err(e),
    }
}

/// Calls `ObjectId::to_hex` on the identifier made of `bytes`.
///
/// Trusted: the result is the 24 lower-case hex digits of the bytes, in order.
#[verifier::external_body]
fn object_id_hex(bytes: [u8; 12]) -> (r: String)
    ensures
        r@ == encode_hex(bytes@),
{
    ObjectId::from_bytes(bytes).to_hex()
}

impl Id {
    /// Reads an identifier from its spelling; `None` unless `s` is 24 hex digits.
    pub fn parse(s: &str) -> (r: Option<Id>)
        ensures
            r is Some <==> is_hex_id(s@),
            r matches Some(id) ==> id@ == decode_hex(s@) && id == parsed(s@),
    {
        match parse_object_id(s) {
            Ok(bytes) => {
                assert(bytes =~= parsed(s@).bytes);
                Some(Id { bytes })
            },
            Err(_) => None,
        }
    }

    /// The canonical spelling of this identifier.
    pub fn to_hex(&self) -> (r: String)
        ensures
            r@ == encode_hex(self@),
    {
        object_id_hex(self.bytes)
    }

    /// Whether two identifiers are the same.
    pub fn same(&self, other: &Id) -> (r: bool)
        ensures
            r <==> *self == *other,
            r <==> self@ == other@,
    {
        let mut i: usize = 0;
        while i < 12
            invariant
                i <= 12,
                forall|j: int| 0 <= j < i ==> self.bytes[j] == other.bytes[j],
            decreases 12 - i,
        {
            if self.bytes[i] != other.bytes[i] {
                return false;
            }
            i += 1;
        }
        assert(self.bytes =~= other.bytes);
        true
    }
}

/// Each value below sixteen is the value of the digit that spells it.
proof fn lemma_digit_round_trip(v: int)
    requires
        0 <= v < 16,
    ensures
        digit_value(digit_char(v)) == Some(v as u8),
{
}

/// The spelling is canonical: what `encode_hex` writes is an identifier's
/// spelling, and `decode_hex` reads the same bytes back from it.
pub proof fn law_spelling_round_trip(b: Seq<u8>)
    requires
        b.len() == ID_BYTES,
    ensures
        is_hex_id(encode_hex(b)),
        decode_hex(encode_hex(b)) == b,
{
    let s = encode_hex(b);
    assert forall|i: int| 0 <= i < s.len() implies (#[trigger] digit_value(s[i])) is Some by {
        lemma_digit_round_trip(b[i / 2] as int / 16);
        lemma_digit_round_trip(b[i / 2] as int % 16);
    }
    assert forall|i: int| 0 <= i < ID_BYTES implies decode_hex(s)[i] == b[i] by {
        lemma_digit_round_trip(b[i] as int / 16);
        lemma_digit_round_trip(b[i] as int % 16);
        assert(s[2 * i] == digit_char(b[i] as int / 16));
        assert(s[2 * i + 1] == digit_char(b[i] as int % 16));
    }
    assert(decode_hex(s) =~= b);
}

/// Two identifiers with the same spelling are the same.
pub proof fn law_spelling_is_injective(a: Seq<u8>, b: Seq<u8>)
    requires
        a.len() == ID_BYTES,
        b.len() == ID_BYTES,
        encode_hex(a) == encode_hex(b),
    ensures
        a == b,
{
    law_spelling_round_trip(a);
    law_spelling_round_trip(b);
}

} // verus!
