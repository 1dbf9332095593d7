//! Identifier translation between the domain's opaque textual identifier and
//! the store-native 128-bit identifier value, carried out by the `uuid`
//! crate behind trusted wrappers.

use vstd::prelude::*;

verus! {

/// What `uuid::Uuid::parse_str` yields on a piece of text, read as the
/// 128-bit value of the parsed identifier; `None` where the text is not a
/// well-formed identifier.
pub uninterp spec fn uuid_parse(s: Seq<char>) -> Option<u128>;

/// The canonical hyphenated text of a 128-bit identifier value, as the
/// `uuid` crate renders it.
pub uninterp spec fn uuid_str(v: u128) -> Seq<char>;

/// Relies on `uuid::Uuid::now_v7` and `Uuid::as_u128`: a fresh,
/// time-ordered identifier value. Nothing is promised of it — it depends on
/// the clock and on randomness. `now_v7` panics if the process's entropy
/// source fails or the system clock reads before the Unix epoch; both are
/// environmental conditions, independent of any input.
#[verifier::external_body]
pub(crate) fn generate_todo_id() -> u128 {
    uuid::Uuid::now_v7().as_u128()
}

/// Relies on `uuid::Uuid::from_u128` and `Display for Uuid`: the canonical
/// hyphenated rendering is 36 characters, depends on the value alone, and
/// `Uuid::parse_str` accepts it and gives the same value back (the
/// documented round trip).
#[verifier::external_body]
pub(crate) fn format_todo_id(v: u128) -> (r: String)
    ensures
        r@ == uuid_str(v),
        r@.len() == 36,
        uuid_parse(r@) == Some(v),
{
    uuid::Uuid::from_u128(v).to_string()
}

/// Relies on `uuid::Uuid::parse_str` and `Uuid::as_u128`: whether and how a
/// piece of text parses depends on its characters alone.
#[verifier::external_body]
pub(crate) fn parse_todo_id(s: &str) -> (r: Option<u128>)
    ensures
        r == uuid_parse(s@),
{
    match uuid::Uuid::parse_str(s) {
        Ok(u) => Some(u.as_u128()),
        Err(_) => None,
    }
}

} // verus!
