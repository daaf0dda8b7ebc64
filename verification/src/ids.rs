//! Record identifiers: UUIDs, held as the 128-bit numbers they stand for.
use vstd::prelude::*;
use vstd::arithmetic::power2::pow2;
use vstd::utf8::encode_utf8;
use crate::error::{bad_request, is_bad_request, is_not_found, not_found, AppError};

verus! {

/// What `uuid::Uuid::parse_str` gives for a text, as a number.
pub uninterp spec fn uuid_parse(s: Seq<char>) -> Option<u128>;

/// The `k`-th hexadecimal digit of a UUID, counted from the most significant.
pub open spec fn uuid_nibble(u: u128, k: int) -> int {
    (u as int / pow2((4 * (31 - k)) as nat) as int) % 16
}

/// The lower-case hexadecimal digit for a value below 16.
pub open spec fn hex_digit(d: int) -> char {
    if d < 10 {
        (48 + d) as char
    } else {
        (87 + d) as char
    }
}

/// Which hexadecimal digit stands at a position of the hyphenated form.
pub open spec fn digit_at(i: int) -> int {
    if i < 8 {
        i
    } else if i < 13 {
        i - 1
    } else if i < 18 {
        i - 2
    } else if i < 23 {
        i - 3
    } else {
        i - 4
    }
}

/// The hyphenated lower-case form of a UUID, `xxxxxxxx-xxxx-xxxx-xxxx-xxxxxxxxxxxx`.
pub open spec fn uuid_text(u: u128) -> Seq<char> {
    Seq::new(
        36,
        |i: int|
            if i == 8 || i == 13 || i == 18 || i == 23 {
                '-'
            } else {
                hex_digit(uuid_nibble(u, digit_at(i)))
            },
    )
}

/// Whether a text has one of the lengths of a UUID's forms: 32, 36, 38 or 45
/// bytes.
pub open spec fn has_uuid_length(s: Seq<char>) -> bool {
    let n = encode_utf8(s).len();
    n == 32 || n == 36 || n == 38 || n == 45
}

/// Parses a UUID (`uuid::Uuid::parse_str`); `None` where the text is not one.
///
/// Trusted: the result is whatever `parse_str` gives for the text, named
/// `uuid_parse`. Of it is stated what `try_parse` shows plainly: it reads
/// only texts of 32, 36, 38 or 45 bytes, and the hyphenated lower-case form
/// of a UUID (36 bytes, `parse_hyphenated`) gives that UUID back. The rest of
/// the grammar (simple, braced and URN forms, upper case) is not spelled out.
#[verifier::external_body]
pub(crate) fn parse_uuid(s: &str) -> (r: Option<u128>)
    ensures
        r == uuid_parse(s@),
        !has_uuid_length(s@) ==> r is None,
        forall|u: u128| s@ == #[trigger] uuid_text(u) ==> r == Some(u),
{
    uuid::Uuid::parse_str(s).ok().map(|u| u.as_u128())
}

/// The hyphenated lower-case text of a UUID (`Uuid`'s `Display`).
///
/// Trusted: the uuid crate documents and writes `Display` as the hyphenated
/// lower-case form, which `uuid_text` spells out.
#[verifier::external_body]
pub(crate) fn uuid_to_string(u: u128) -> (s: String)
    ensures
        s@ == uuid_text(u),
{
    uuid::Uuid::from_u128(u).to_string()
}

/// Parses an identifier given in a request, answering `BadRequest` with the
/// given message where it is not a UUID.
pub fn parse_id_or(s: &str, msg: &str) -> (r: Result<u128, AppError>)
    ensures
        !has_uuid_length(s@) ==> uuid_parse(s@) is None,
        forall|u: u128| s@ == #[trigger] uuid_text(u) ==> uuid_parse(s@) == Some(u),
        match uuid_parse(s@) {
            Some(u) => r == Ok::<u128, AppError>(u),
            None => r matches Err(e) && is_bad_request(e, msg@),
        },
{
    match parse_uuid(s) {
        Some(u) => Ok(u),
        None => Err(bad_request(msg)),
    }
}

/// Parses the room identifier of a request path or body.
pub fn parse_room_id(s: &str) -> (r: Result<u128, AppError>)
    ensures
        !has_uuid_length(s@) ==> uuid_parse(s@) is None,
        forall|u: u128| s@ == #[trigger] uuid_text(u) ==> uuid_parse(s@) == Some(u),
        match uuid_parse(s@) {
            Some(u) => r == Ok::<u128, AppError>(u),
            None => r matches Err(e) && is_bad_request(e, "Invalid room_id"@),
        },
{
    parse_id_or(s, "Invalid room_id")
}

/// Parses an identifier given in a request path, answering `NotFound` with
/// the given message where it is not a UUID.
pub fn parse_id_or_not_found(s: &str, msg: &str) -> (r: Result<u128, AppError>)
    ensures
        !has_uuid_length(s@) ==> uuid_parse(s@) is None,
        forall|u: u128| s@ == #[trigger] uuid_text(u) ==> uuid_parse(s@) == Some(u),
        match uuid_parse(s@) {
            Some(u) => r == Ok::<u128, AppError>(u),
            None => r matches Err(e) && is_not_found(e, msg@),
        },
{
    match parse_uuid(s) {
        Some(u) => Ok(u),
        None => Err(not_found(msg)),
    }
}

} // verus!
