//! Content identifiers: 128-bit values with a canonical textual form.
//!
//! An identifier is held as a `u128` whose big-endian bytes are the sixteen
//! bytes of the UUID, so that `<` on the integer is the byte order in which
//! the key-value store keeps its keys.

use vstd::prelude::*;
use crate::error::BackendError;

verus! {

/// The identifier of one post, pending or published.
#[derive(Clone, Copy, Debug, PartialEq, Eq, Structural)]
pub struct PostId {
    pub value: u128,
}

/// The value that `uuid::Uuid::parse_str` reads from `text`, if it accepts it.
pub uninterp spec fn parsed_uuid(text: Seq<char>) -> Option<u128>;

/// The lower-case hexadecimal digit for `n` in `0..16`.
pub open spec fn hex_digit(n: int) -> char {
    seq!['0', '1', '2', '3', '4', '5', '6', '7', '8', '9', 'a', 'b', 'c', 'd', 'e', 'f'][n]
}

/// The `k`-th of the 32 hexadecimal digits of `v`, most significant first.
pub open spec fn nibble(v: int, k: int) -> int
    decreases 31 - k,
{
    if k >= 31 {
        v % 16
    } else {
        nibble(v / 16, k + 1)
    }
}

/// How many hyphens stand before position `i` of the canonical form.
pub open spec fn hyphens_before(i: int) -> int {
    if i < 8 {
        0
    } else if i < 13 {
        1
    } else if i < 18 {
        2
    } else if i < 23 {
        3
    } else {
        4
    }
}

/// The canonical form of `v`: 32 lower-case hexadecimal digits in groups of
/// 8, 4, 4, 4 and 12, with a hyphen between groups.
pub open spec fn canonical_text(v: u128) -> Seq<char> {
    Seq::new(
        36,
        |i: int|
            if i == 8 || i == 13 || i == 18 || i == 23 {
                '-'
            } else {
                hex_digit(nibble(v as int, i - hyphens_before(i)))
            },
    )
}

/// Whether `v` carries the version and variant marks of a random identifier.
pub open spec fn is_random_layout(v: u128) -> bool {
    (v / 0x1000_0000_0000_0000_0000) % 16 == 4 && (v / 0x4000_0000_0000_0000) % 4 == 2
}

#[verifier::external_type_specification]
#[verifier::external_body]
pub struct ExUuidError(uuid::Error);

/// Calls `uuid::Uuid::parse_str` and hands the value out through `as_u128`.
/// The contract names what the parser reads without describing its grammar.
#[verifier::external_body]
fn uuid_parse(text: &str) -> (r: Result<u128, uuid::Error>)
    ensures
        r.is_ok() == parsed_uuid(text@).is_some(),
        r matches Ok(v) ==> parsed_uuid(text@) == Some(v),
{
    match uuid::Uuid::parse_str(text) {
        Ok(u) => Ok(u.as_u128()),
        Err(e) => Err(e),
    }
}

/// Calls `uuid::Uuid::from_u128` and formats the value with its `Display`,
/// which writes the hyphenated lower-case form. The parser of the same crate
/// reads that form back to the same value.
#[verifier::external_body]
fn uuid_text(v: u128) -> (text: String)
    ensures
        text@ == canonical_text(v),
        parsed_uuid(text@) == Some(v),
{
    uuid::Uuid::from_u128(v).to_string()
}

/// Calls `uuid::Uuid::new_v4`, which draws 128 random bits and then sets the
/// version to 4 and the variant to RFC 4122.
#[verifier::external_body]
fn uuid_random() -> (v: u128)
    ensures
        is_random_layout(v),
{
    uuid::Uuid::new_v4().as_u128()
}

impl PostId {
    /// Reads an identifier from text. Malformed text is `InvalidInput`; a
    /// caller that got the text from a user treats that as "not found".
    pub fn parse(text: &str) -> (r: Result<PostId, BackendError>)
        ensures
            match r {
                Ok(id) => parsed_uuid(text@) == Some(id.value),
                Err(e) => e == BackendError::InvalidInput && parsed_uuid(text@).is_none(),
            },
    {
        match uuid_parse(text) {
            Ok(value) => Ok(PostId { value }),
            Err(_) => Err(BackendError::InvalidInput),
        }
    }

    /// The canonical text of the identifier, which `parse` reads back.
    pub fn to_text(&self) -> (text: String)
        ensures
            text@ == canonical_text(self.value),
            parsed_uuid(text@) == Some(self.value),
    {
        uuid_text(self.value)
    }

    /// A fresh random identifier.
    pub fn generate() -> (id: PostId)
        ensures
            is_random_layout(id.value),
    {
        PostId { value: uuid_random() }
    }
}

} // verus!
