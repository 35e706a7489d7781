//! Store-assigned document identifiers: twelve bytes, written as 24 hex digits.

use vstd::prelude::*;

verus! {

/// A document identifier of the store: twelve raw bytes.
#[derive(Clone, Copy, Debug)]
pub struct ObjectId {
    pub bytes: [u8; 12],
}

impl View for ObjectId {
    type V = Seq<u8>;

    open spec fn view(&self) -> Seq<u8> {
        self.bytes@
    }
}

pub open spec fn is_hex_digit(c: char) -> bool {
    ||| ('0' <= c && c <= '9')
    ||| ('a' <= c && c <= 'f')
    ||| ('A' <= c && c <= 'F')
}

/// The value of one hex digit.
pub open spec fn hex_value(c: char) -> int {
    if '0' <= c && c <= '9' {
        (c as int) - ('0' as int)
    } else if 'a' <= c && c <= 'f' {
        (c as int) - ('a' as int) + 10
    } else {
        (c as int) - ('A' as int) + 10
    }
}

/// The canonical text form of an identifier: exactly 24 hex digits, either case.
pub open spec fn is_object_id_text(s: Seq<char>) -> bool {
    &&& s.len() == 24
    &&& forall|i: int| 0 <= i < 24 ==> is_hex_digit(#[trigger] s[i])
}

/// The twelve bytes that 24 hex digits spell, two digits per byte, high digit first.
pub open spec fn object_id_bytes(s: Seq<char>) -> Seq<u8> {
    Seq::new(12, |i: int| (hex_value(s[2 * i]) * 16 + hex_value(s[2 * i + 1])) as u8)
}

/// Relies on bson's `ObjectId::parse_str`, which hex-decodes the text (both
/// cases accepted) and fails unless it decodes to exactly twelve bytes.
#[verifier::external_body]
fn decode_object_id(s: &str) -> (r: Option<[u8; 12]>)
    ensures
        r is Some <==> is_object_id_text(s@),
        r is Some ==> r->0@ == object_id_bytes(s@),
{
    match bson::oid::ObjectId::parse_str(s) {
        Ok(oid) => Some(oid.bytes()),
        Err(_) => None,
    }
}

/// Relies on bson's `ObjectId::new`, which builds an identifier from the
/// clock, a per-process random value and a counter; nothing is known of it.
#[verifier::external_body]
pub(crate) fn generate_object_id() -> (r: ObjectId) {
    ObjectId { bytes: bson::oid::ObjectId::new().bytes() }
}

/// Relies on bson's `ObjectId::to_hex`, which is `hex::encode` of the twelve
/// bytes: 24 lower-case hex digits that decode back to them.
#[verifier::external_body]
fn encode_object_id(bytes: [u8; 12]) -> (r: String)
    ensures
        is_object_id_text(r@),
        object_id_bytes(r@) == bytes@,
{
    bson::oid::ObjectId::from_bytes(bytes).to_hex()
}

impl ObjectId {
    /// The canonical text form, which `parse_str` reads back to the same bytes.
    pub fn to_hex(&self) -> (r: String)
        ensures
            is_object_id_text(r@),
            object_id_bytes(r@) == self@,
    {
        encode_object_id(self.bytes)
    }

    /// Parses the canonical text form; `None` for any other text.
    pub fn parse_str(s: &str) -> (r: Option<ObjectId>)
        ensures
            r is Some <==> is_object_id_text(s@),
            r is Some ==> r->0@ == object_id_bytes(s@),
    {
        match decode_object_id(s) {
            Some(bytes) => Some(ObjectId { bytes }),
            None => None,
        }
    }

    /// Whether two identifiers hold the same bytes.
    pub fn same_as(&self, other: &ObjectId) -> (r: bool)
        ensures
            r == (self@ == other@),
    {
        let mut i: usize = 0;
        while i < 12
            invariant
                0 <= i <= 12,
                forall|j: int| 0 <= j < i ==> self@[j] == other@[j],
            decreases 12 - i,
        {
            if self.bytes[i] != other.bytes[i] {
                return false;
            }
            i = i + 1;
        }
        assert(self@ =~= other@);
        true
    }
}

} // verus!
