//! Declarations of the outside types that the API layer carries, and the
//! trusted items through which it calls outside code.
use vstd::prelude::*;

use crate::apis::form_encoding::form_urlencoded;

verus! {

/// The error of a failed HTTP exchange, as `reqwest` reports it; carried
/// through unchanged.
#[verifier::external_type_specification]
#[verifier::external_body]
pub struct ExReqwestError(reqwest::Error);

/// The error of a failed JSON (de)serialization, as `serde_json` reports it;
/// carried through unchanged.
#[verifier::external_type_specification]
#[verifier::external_body]
pub struct ExSerdeJsonError(serde_json::Error);

/// A JSON document of any shape, as `serde_json` represents it; carried
/// through unchanged.
#[verifier::external_type_specification]
#[verifier::external_body]
pub struct ExSerdeJsonValue(serde_json::Value);

/// An I/O error of the standard library; carried through unchanged.
#[verifier::external_type_specification]
#[verifier::external_body]
pub struct ExIoError(std::io::Error);

/// `serde_json::Value` derives `Clone`: the copy is the same JSON document.
pub assume_specification[ <serde_json::Value as Clone>::clone ](v: &serde_json::Value) -> (res:
    serde_json::Value)
    ensures
        res == *v,
;

/// Calls `url::form_urlencoded::byte_serialize` on `input` and joins the
/// pieces it yields. Its source copies `*`, `-`, `.`, `_`, ASCII digits and
/// letters unchanged, turns a space into `+`, and every other byte into `%`
/// and two upper-case hexadecimal digits; the contract states exactly that.
#[verifier::external_body]
pub(crate) fn byte_serialize(input: &[u8]) -> (res: String)
    ensures
        res@ == form_urlencoded(input@),
{
    url::form_urlencoded::byte_serialize(input).collect()
}

/// The text that `http`'s `Display` gives a status code: the code, a space
/// and its canonical reason phrase (or `<unknown status code>`), as in
/// `401 Unauthorized`.
pub uninterp spec fn status_display(code: u16) -> Seq<char>;

/// Builds the `reqwest::StatusCode` for `code` and calls its `Display`
/// (through `to_string`). `StatusCode::from_u16` accepts exactly 100 to 999,
/// hence the `requires`. The source writes the number, a space and the
/// reason phrase; the contract names that text and states its first four
/// characters, the three digits and the space. The reason phrase table itself
/// is not written out.
#[verifier::external_body]
pub(crate) fn status_text(code: u16) -> (res: String)
    requires
        100 <= code <= 999,
    ensures
        res@ == status_display(code),
        res@.len() >= 4,
        res@[0] == ((0x30 + code / 100) as u8) as char,
        res@[1] == ((0x30 + (code / 10) % 10) as u8) as char,
        res@[2] == ((0x30 + code % 10) as u8) as char,
        res@[3] == ' ',
{
    match reqwest::StatusCode::from_u16(code) {
        Ok(status) => status.to_string(),
        Err(_) => String::new(),
    }
}

/// Formats `value` with its `Debug` implementation (`format!("{:?}")`).
/// Nothing is stated of the text: the implementation belongs to the caller's
/// type, which carries no view here.
#[verifier::external_body]
pub(crate) fn debug_text<T: core::fmt::Debug>(value: &T) -> String {
    format!("{:?}", value)
}

} // verus!
