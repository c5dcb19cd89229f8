//! Client identities: opaque 128-bit routing tokens with a textual form.

use vstd::prelude::*;

verus! {

/// The identity denoted by a string, if it is well formed. This is the
/// result of `uuid::Uuid::parse_str`, which depends on the characters of
/// the string alone.
pub uninterp spec fn uuid_of_str(s: Seq<char>) -> Option<u128>;

/// The canonical hyphenated text of a 128-bit identity. This is the result
/// of `uuid::Uuid`'s `Display` rendering, which depends on the value alone.
pub uninterp spec fn uuid_text(v: u128) -> Seq<char>;

/// Relies on `uuid::Uuid::parse_str` and `Uuid::as_u128`: whether a string
/// parses as an identity, and which 128-bit value it denotes, are functions
/// of the string's characters alone.
#[verifier::external_body]
pub(crate) fn parse_identity(s: &str) -> (r: Option<u128>)
    ensures
        r == uuid_of_str(s@),
{
    match uuid::Uuid::parse_str(s) {
        Ok(u) => Some(u.as_u128()),
        Err(_) => None,
    }
}

/// Relies on `uuid::Uuid::from_u128` and `Uuid`'s `Display` impl: the
/// hyphenated text of an identity is a function of its 128-bit value alone.
#[verifier::external_body]
pub(crate) fn identity_text(v: u128) -> (r: String)
    ensures
        r@ == uuid_text(v),
{
    uuid::Uuid::from_u128(v).to_string()
}

} // verus!
