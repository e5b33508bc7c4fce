use vstd::prelude::*;

verus! {

/// Type of the error that bson reports for a malformed identifier text.
#[verifier::external_type_specification]
#[verifier::external_body]
pub struct ExObjectIdError(mongodb::bson::oid::Error);

/// Whether `c` is an ASCII hexadecimal digit, in either case.
pub open spec fn is_hex_digit(c: char) -> bool {
    ('0' <= c && c <= '9') || ('a' <= c && c <= 'f') || ('A' <= c && c <= 'F')
}

/// Value of a hexadecimal digit.
pub open spec fn hex_digit_value(c: char) -> int {
    if '0' <= c && c <= '9' {
        c as int - '0' as int
    } else if 'a' <= c && c <= 'f' {
        c as int - 'a' as int + 10
    } else {
        c as int - 'A' as int + 10
    }
}

/// The canonical text of a store identifier: twenty-four hexadecimal digits.
pub open spec fn is_object_id_text(s: Seq<char>) -> bool {
    s.len() == 24 && forall|i: int| 0 <= i < 24 ==> is_hex_digit(#[trigger] s[i])
}

/// The twelve bytes that a canonical identifier text denotes, two digits each,
/// high digit first.
pub open spec fn object_id_bytes(s: Seq<char>) -> Seq<u8> {
    Seq::new(
        12,
        |i: int| (16 * hex_digit_value(s[2 * i]) + hex_digit_value(s[2 * i + 1])) as u8,
    )
}

/// A store-assigned identifier: twelve opaque bytes.
#[derive(Clone, Copy, PartialEq, Eq, Debug, Hash)]
pub struct RecordId {
    pub bytes: [u8; 12],
}

impl RecordId {
    /// Byte-wise equality of two identifiers.
    pub fn same_as(&self, other: &RecordId) -> (r: bool)
        ensures
            r == (*self == *other),
    {
        let mut i: usize = 0;
        while i < 12
            invariant
                0 <= i <= 12,
                forall|j: int| 0 <= j < i ==> self.bytes[j] == other.bytes[j],
            decreases 12 - i,
        {
            if self.bytes[i] != other.bytes[i] {
                return false;
            }
            i = i + 1;
        }
        assert(self.bytes =~= other.bytes);
        true
    }

    /// Reads an identifier from its canonical text.
    pub fn parse(text: &str) -> (r: Option<RecordId>)
        ensures
            r.is_some() == is_object_id_text(text@),
            r matches Some(id) ==> id.bytes@ == object_id_bytes(text@),
    {
        match parse_object_id(text) {
            Ok(id) => Some(id),
            Err(_) => None,
        }
    }

    /// A fresh identifier for a record about to be stored.
    pub fn fresh() -> (r: RecordId) {
        fresh_object_id()
    }
}

/// Relies on bson's `ObjectId::parse_str`: it hex-decodes the text (either
/// case accepted, an odd length or a non-digit refused) and accepts exactly
/// twelve decoded bytes.
#[verifier::external_body]
fn parse_object_id(text: &str) -> (r: Result<RecordId, mongodb::bson::oid::Error>)
    ensures
        r.is_ok() == is_object_id_text(text@),
        r matches Ok(id) ==> id.bytes@ == object_id_bytes(text@),
{
    mongodb::bson::oid::ObjectId::parse_str(text).map(|o| RecordId { bytes: o.bytes() })
}

/// Relies on bson's `ObjectId::new`: a new identifier from the clock, the
/// process and a counter. Nothing is stated of its bytes.
#[verifier::external_body]
fn fresh_object_id() -> (r: RecordId) {
    RecordId { bytes: mongodb::bson::oid::ObjectId::new().bytes() }
}

} // verus!
