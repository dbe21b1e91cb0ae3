//! Identifiers of stored documents.
//!
//! The store names each document by twelve bytes. Clients write such an
//! identifier as twenty-four hexadecimal digits, two per byte, the high
//! nibble first. Both cases of the letters are read.

use vstd::prelude::*;

verus! {

/// Number of bytes in an identifier.
pub const OBJECT_ID_BYTES: usize = 12;

/// Number of hexadecimal digits that spell an identifier.
pub const OBJECT_ID_HEX_DIGITS: usize = 24;

/// Whether `c` is one of `0-9`, `a-f`, `A-F`.
pub open spec fn is_hex_digit(c: char) -> bool {
    ||| '0' <= c <= '9'
    ||| 'a' <= c <= 'f'
    ||| 'A' <= c <= 'F'
}

/// The value of a hexadecimal digit, between 0 and 15.
pub open spec fn hex_digit_value(c: char) -> int
    recommends
        is_hex_digit(c),
{
    if '0' <= c <= '9' {
        c as int - '0' as int
    } else if 'a' <= c <= 'f' {
        c as int - 'a' as int + 10
    } else {
        c as int - 'A' as int + 10
    }
}

/// Whether `text` spells an identifier: exactly twenty-four hexadecimal digits.
pub open spec fn is_object_id_hex(text: Seq<char>) -> bool {
    &&& text.len() == OBJECT_ID_HEX_DIGITS
    &&& forall|i: int| 0 <= i < text.len() ==> is_hex_digit(#[trigger] text[i])
}

/// The bytes that `text` spells: byte `i` is made of digits `2 * i` and `2 * i + 1`.
pub open spec fn object_id_bytes(text: Seq<char>) -> Seq<u8>
    recommends
        is_object_id_hex(text),
{
    Seq::new(
        OBJECT_ID_BYTES as nat,
        |i: int| (16 * hex_digit_value(text[2 * i]) + hex_digit_value(text[2 * i + 1])) as u8,
    )
}

/// The identifier of a stored document.
#[derive(Clone, Copy, Debug, PartialEq, Eq)]
pub struct ObjectId {
    pub bytes: [u8; 12],
}

impl View for ObjectId {
    type V = Seq<u8>;

    open spec fn view(&self) -> Seq<u8> {
        self.bytes@
    }
}

/// Calls `bson::oid::ObjectId::parse_str` and hands out the bytes of the
/// identifier it read.
///
/// That function decodes the UTF-8 bytes of the text as hexadecimal, two
/// digits per byte with the high nibble first, and accepts the outcome when it
/// is twelve bytes long. A character outside ASCII is never a digit, so the
/// text is accepted exactly when it is twenty-four hexadecimal digits.
#[verifier::external_body]
fn bson_parse_object_id(text: &str) -> (parsed: Option<[u8; 12]>)
    ensures
        parsed is Some <==> is_object_id_hex(text@),
        parsed matches Some(bytes) ==> bytes@ == object_id_bytes(text@),
{
    match bson::oid::ObjectId::parse_str(text) {
        Ok(id) => Some(id.bytes()),
        Err(_) => None,
    }
}

impl ObjectId {
    /// Reads an identifier written as twenty-four hexadecimal digits.
    ///
    /// Any other text, the empty one included, is no identifier.
    pub fn parse_str(text: &str) -> (parsed: Option<ObjectId>)
        ensures
            parsed is Some <==> is_object_id_hex(text@),
            parsed matches Some(id) ==> id@ == object_id_bytes(text@),
    {
        match bson_parse_object_id(text) {
            Some(bytes) => Some(ObjectId { bytes }),
            None => None,
        }
    }
}

} // verus!
