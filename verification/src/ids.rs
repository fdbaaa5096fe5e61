//! Identifiers: the 128-bit value of a UUID, its textual form, and fresh ids.

use vstd::prelude::*;

verus! {

/// The lowercase hexadecimal digit for `d` (0 <= d < 16).
pub open spec fn hex_digit(d: int) -> char {
    if d < 10 {
        ('0' as int + d) as char
    } else {
        ('a' as int + d - 10) as char
    }
}

/// The last `n` hexadecimal digits of `v`, most significant first.
pub open spec fn hex_digits(v: nat, n: nat) -> Seq<char>
    decreases n,
{
    if n == 0 {
        seq![]
    } else {
        hex_digits(v / 16, (n - 1) as nat).push(hex_digit((v % 16) as int))
    }
}

/// The hyphenated lowercase text of an id, as `8-4-4-4-12` hexadecimal digits.
pub open spec fn hyphenated(id: u128) -> Seq<char> {
    let h = hex_digits(id as nat, 32);
    h.subrange(0, 8) + seq!['-'] + h.subrange(8, 12) + seq!['-'] + h.subrange(12, 16)
        + seq!['-'] + h.subrange(16, 20) + seq!['-'] + h.subrange(20, 32)
}

pub proof fn lemma_hex_digits_len(v: nat, n: nat)
    ensures
        hex_digits(v, n).len() == n,
    decreases n,
{
    if n > 0 {
        lemma_hex_digits_len(v / 16, (n - 1) as nat);
    }
}

/// The text of an id is 36 characters long.
pub proof fn lemma_hyphenated_len(id: u128)
    ensures
        hyphenated(id).len() == 36,
{
    lemma_hex_digits_len(id as nat, 32);
}

/// What `uuid::Uuid::parse_str` gives back for a text, as the 128-bit value.
pub uninterp spec fn uuid_parse(text: Seq<char>) -> Option<u128>;

/// A fresh random (version 4) id.
///
/// Calls `uuid::Uuid::new_v4`, which masks random bits and sets the version
/// nibble to 4 and the variant bits to `10`; nothing else is promised of the
/// value, which is random.
#[verifier::external_body]
pub(crate) fn new_id() -> (id: u128)
    ensures
        (id >> 76u128) & 0xfu128 == 4,
        (id >> 62u128) & 0x3u128 == 2,
{
    uuid::Uuid::new_v4().as_u128()
}

/// The hyphenated lowercase text of an id.
///
/// Calls the `Display` of `uuid::Uuid` (lowercase hexadecimal, hyphenated, 36
/// characters), and states that `uuid::Uuid::parse_str` reads that text back as
/// the same id, as the crate documents for the formats it produces.
#[verifier::external_body]
pub(crate) fn id_text(id: u128) -> (text: String)
    ensures
        text@ == hyphenated(id),
        uuid_parse(text@) == Some(id),
{
    uuid::Uuid::from_u128(id).to_string()
}

/// Parses the text of an id.
///
/// Calls `uuid::Uuid::parse_str`, which accepts the simple, hyphenated, URN and
/// braced forms; its result is named by `uuid_parse`.
#[verifier::external_body]
pub(crate) fn parse_id(text: &str) -> (id: Option<u128>)
    ensures
        id == uuid_parse(text@),
{
    match uuid::Uuid::parse_str(text) {
        Ok(u) => Some(u.as_u128()),
        Err(_) => None,
    }
}

} // verus!
