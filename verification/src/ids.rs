//! Identifiers of users, properties and requests: 128-bit UUIDs, their text
//! form, and the clock that stamps new records.

use vstd::prelude::*;
use vstd::arithmetic::power::pow;
use crate::numbers::digit_char;

verus! {

/// The lower-case hexadecimal digit of a value from 0 to 15.
pub open spec fn hex_digit(d: int) -> char {
    if d < 10 {
        digit_char(d)
    } else if d == 10 {
        'a'
    } else if d == 11 {
        'b'
    } else if d == 12 {
        'c'
    } else if d == 13 {
        'd'
    } else if d == 14 {
        'e'
    } else {
        'f'
    }
}

/// The `i`-th of the 32 hexadecimal digits of an id, most significant first.
pub open spec fn nibble(id: u128, i: int) -> int {
    (id as int / pow(16, (31 - i) as nat)) % 16
}

/// How many hyphens stand before position `k` of the hyphenated form.
pub open spec fn hyphens_before(k: int) -> int {
    if k < 8 { 0 } else if k < 13 { 1 } else if k < 18 { 2 } else if k < 23 { 3 } else { 4 }
}

/// The hyphenated lower-case text of an id, `xxxxxxxx-xxxx-xxxx-xxxx-xxxxxxxxxxxx`:
/// the 32 hexadecimal digits, most significant first, with hyphens after the
/// 8th, 12th, 16th and 20th.
pub open spec fn hyphenated_text(id: u128) -> Seq<char> {
    Seq::new(36, |k: int|
        if k == 8 || k == 13 || k == 18 || k == 23 {
            '-'
        } else {
            hex_digit(nibble(id, k - hyphens_before(k)))
        })
}

/// The id that `uuid::Uuid::parse_str` reads from a text, if any.
pub uninterp spec fn uuid_from_text(s: Seq<char>) -> Option<u128>;

/// Reads an id with `uuid::Uuid::parse_str`, which accepts the simple,
/// hyphenated, braced and URN forms in either case; the result depends on the
/// text alone and is named `uuid_from_text`. The one fact stated of it is that
/// the hyphenated lower-case form of an id, the form `uuid_text` writes, reads
/// back as that id. Which other texts it accepts is not stated.
#[verifier::external_body]
pub fn parse_uuid(s: &str) -> (r: Option<u128>)
    ensures
        r == uuid_from_text(s@),
        forall|id: u128| s@ == hyphenated_text(id) ==> r == Some(id),
{
    match uuid::Uuid::parse_str(s) {
        Ok(u) => Some(u.as_u128()),
        Err(_) => None,
    }
}

/// Writes an id the way `uuid::Uuid`'s `Display` does: hyphenated, lower case.
#[verifier::external_body]
pub fn uuid_text(id: u128) -> (r: String)
    ensures
        r@ == hyphenated_text(id),
{
    uuid::Uuid::from_u128(id).to_string()
}

/// A fresh random id from `uuid::Uuid::new_v4`. Of every outcome it holds that
/// the version field is 4 and the variant bits are `10`; the other 122 bits
/// are random and nothing is stated of them.
#[verifier::external_body]
pub fn new_random_id() -> (r: u128)
    ensures
        (r >> 76u128) & 0xfu128 == 4,
        (r >> 62u128) & 0x3u128 == 2,
{
    uuid::Uuid::new_v4().as_u128()
}

/// The current time from `chrono::Utc::now`, as microseconds since the Unix
/// epoch. It depends on the clock; nothing is stated of it.
#[verifier::external_body]
pub fn now_micros() -> (r: i64)
{
    chrono::Utc::now().timestamp_micros()
}

} // verus!
