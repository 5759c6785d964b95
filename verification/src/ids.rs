//! Identifiers. Every entity of the platform is identified by a UUID, held
//! here as the `u128` whose big-endian bytes are the UUID's bytes.

use vstd::prelude::*;

verus! {

/// The nil identifier (all bits zero).
pub const NIL: u128 = 0;

/// The lowercase hexadecimal digit for a value below 16.
pub open spec fn hex_digit(n: int) -> char {
    if n < 10 {
        (('0' as int) + n) as char
    } else {
        (('a' as int) + n - 10) as char
    }
}

/// `16^e`.
pub open spec fn pow16(e: nat) -> nat
    decreases e,
{
    if e == 0 {
        1
    } else {
        16 * pow16((e - 1) as nat)
    }
}

/// The `k`-th hexadecimal digit of `id`, counted from the most significant
/// one (`0 <= k < 32`).
pub open spec fn nibble(id: u128, k: int) -> int {
    ((id as nat) / pow16((31 - k) as nat)) as int % 16
}

/// Position among the 32 digits of the character at `i` of the hyphenated
/// form, for an `i` that is not one of the four hyphens.
pub open spec fn digit_position(i: int) -> int {
    if i < 8 {
        i
    } else if i < 13 {
        i - 1
    } else if i < 18 {
        i - 2
    } else if i < 23 {
        i - 3
    } else {
        i - 4
    }
}

/// Whether position `i` of the hyphenated form holds a hyphen.
pub open spec fn is_hyphen_position(i: int) -> bool {
    i == 8 || i == 13 || i == 18 || i == 23
}

/// The hyphenated lowercase text of an identifier, such as
/// `67e55044-10b1-426f-9247-bb680e5fe0c8`.
pub open spec fn hyphenated(id: u128) -> Seq<char> {
    Seq::new(
        36,
        |i: int|
            if is_hyphen_position(i) {
                '-'
            } else {
                hex_digit(nibble(id, digit_position(i)))
            },
    )
}

/// Whether `id` carries the version (random, 4) and variant (RFC 4122)
/// bits of a randomly generated UUID.
pub open spec fn is_random_v4(id: u128) -> bool {
    &&& (id >> 76u128) & 0xfu128 == 4
    &&& (id >> 62u128) & 0x3u128 == 2
}

/// What `uuid::Uuid::parse_str` makes of a text: the identifier, or `None`
/// where it refuses the text.
pub uninterp spec fn uuid_parse(text: Seq<char>) -> Option<u128>;

/// Calls `uuid::Uuid::new_v4`. Its source takes 128 random bits and sets
/// the version nibble to 4 and the two variant bits to `10`; this contract
/// states those bits and nothing of the rest, which is random.
#[verifier::external_body]
pub(crate) fn new_v4() -> (id: u128)
    ensures
        is_random_v4(id),
{
    uuid::Uuid::new_v4().as_u128()
}

/// Calls `uuid::Uuid`'s `Display` (`to_string`). Its source writes the
/// hyphenated lowercase form of the UUID's 16 big-endian bytes, which the
/// contract states as `hyphenated`.
#[verifier::external_body]
pub(crate) fn to_text(id: u128) -> (text: String)
    ensures
        text@ == hyphenated(id),
{
    uuid::Uuid::from_u128(id).to_string()
}

/// Calls `uuid::Uuid::parse_str`. The result is named `uuid_parse`; the
/// contract also states what the parser's source shows of the hyphenated
/// form: it is read back as the identifier it was written from.
#[verifier::external_body]
pub(crate) fn parse(text: &str) -> (id: Option<u128>)
    ensures
        id == uuid_parse(text@),
        forall|v: u128| #[trigger] hyphenated(v) == text@ ==> id == Some(v),
{
    match uuid::Uuid::parse_str(text) {
        Ok(u) => Some(u.as_u128()),
        Err(_) => None,
    }
}

/// A random version-4 identifier is never the nil one.
pub proof fn random_id_is_not_nil(id: u128)
    requires
        is_random_v4(id),
    ensures
        id != NIL,
{
    assert((id >> 76u128) & 0xfu128 == 4 ==> id != 0) by (bit_vector);
}

} // verus!
