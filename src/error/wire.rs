//! The JSON calls that the wire format of error codes relies on.
use vstd::prelude::*;
use crate::text::int_text;

verus! {

/// serde_json's error type, carried through unread.
#[verifier::external_type_specification]
#[verifier::external_body]
pub struct ExJsonError(serde_json::Error);

/// serde_json's untyped value, carried through unread.
#[verifier::external_type_specification]
#[verifier::external_body]
pub struct ExJsonValue(serde_json::Value);

/// Relies on `serde_json::Error`'s `Display`: the text of a parse or
/// serialization failure. Nothing is claimed of its content.
#[verifier::external_body]
pub(crate) fn json_error_text(e: &serde_json::Error) -> String {
    e.to_string()
}

/// Relies on `serde_json::to_string` for an `i32`: the number is written by
/// itoa as plain decimal text into a `Vec`, which cannot fail.
#[verifier::external_body]
pub(crate) fn int_to_json(v: i32) -> (r: Result<String, serde_json::Error>)
    ensures
        r is Ok,
        r->Ok_0@ == int_text(v as int),
{
    serde_json::to_string(&v)
}

/// Relies on `serde_json::from_str` for an `i32`: the plain decimal text of a
/// number in range parses to that number.
#[verifier::external_body]
pub(crate) fn int_from_json(s: &str) -> (r: Result<i32, serde_json::Error>)
    ensures
        forall|v: i32| #[trigger] int_text(v as int) == s@ ==> (r is Ok && r->Ok_0 == v),
{
    serde_json::from_str::<i32>(s)
}

} // verus!
