//! Byte values, which travel as base64 text through k8s_openapi's `ByteString`.
use vstd::prelude::*;

verus! {

/// The base64 text that `ByteString` writes for the bytes `b`.
pub uninterp spec fn base64_of(b: Seq<u8>) -> Seq<char>;

/// The bytes that `ByteString` reads from the text `s`, or `None` where it
/// refuses the text.
pub uninterp spec fn base64_decoded(s: Seq<char>) -> Option<Seq<u8>>;

/// Relies on `Serialize for k8s_openapi::ByteString`, which writes the bytes
/// as a string with base64's standard engine (padded); serde_json turns that
/// string into a string value and cannot fail on it. That engine's decoder,
/// which the `Deserialize` impl uses, reads the text back to the same bytes.
#[verifier::external_body]
pub(crate) fn encode_bytes(b: &Vec<u8>) -> (r: String)
    ensures
        r@ == base64_of(b@),
        base64_decoded(r@) == Some(b@),
{
    match serde_json::to_value(k8s_openapi::ByteString(b.clone())) {
        Ok(serde_json::Value::String(s)) => s,
        _ => String::new(),
    }
}

/// Relies on `Deserialize for k8s_openapi::ByteString`, which reads text with
/// base64's standard engine and refuses text that is not canonical base64.
#[verifier::external_body]
pub(crate) fn decode_bytes(s: &String) -> (r: Option<Vec<u8>>)
    ensures
        match r {
            Some(b) => base64_decoded(s@) == Some(b@),
            None => base64_decoded(s@) is None,
        },
{
    serde_json::from_value::<k8s_openapi::ByteString>(serde_json::Value::String(s.clone())).ok().map(
        |b| b.0,
    )
}

} // verus!
