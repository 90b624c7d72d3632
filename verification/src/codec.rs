//! Trusted bridge to the content codecs: base64 transport encoding and
//! nested-JSON field extraction. Each result that is a pure function of the
//! arguments is given a name, so that the resolver's contracts can speak of
//! it exactly.
use base64::Engine;
use vstd::prelude::*;

verus! {

/// The bytes that standard base64 decoding yields for `text`, or `None` if
/// `text` is not valid base64.
pub uninterp spec fn b64_decoded_of(text: Seq<char>) -> Option<Seq<u8>>;

/// Decodes standard base64 text, treating any decode failure as absence.
///
/// Relies on base64's `Engine::decode` with the standard alphabet: the
/// result depends on the input text alone.
#[verifier::external_body]
pub fn b64_decode(text: &str) -> (r: Option<Vec<u8>>)
    ensures
        r.deep_view() == b64_decoded_of(text@),
{
    base64::engine::general_purpose::STANDARD.decode(text).ok()
}

/// The standard base64 encoding of the UTF-8 bytes of `text`.
pub uninterp spec fn b64_encoded_of(text: Seq<char>) -> Seq<char>;

/// Encodes a string's UTF-8 bytes as standard base64 text.
///
/// Relies on base64's `Engine::encode` with the standard alphabet: the
/// result depends on the input text alone.
#[verifier::external_body]
pub fn b64_encode(text: &str) -> (r: String)
    ensures
        r@ == b64_encoded_of(text@),
{
    base64::engine::general_purpose::STANDARD.encode(text)
}

/// The string found by parsing `bytes` as JSON and reading the object keys
/// `k0`, then `k1`, then `k2`, or `None` if parsing fails, a key is absent,
/// or the final value is not a string.
pub uninterp spec fn json_str3_of(
    bytes: Seq<u8>,
    k0: Seq<char>,
    k1: Seq<char>,
    k2: Seq<char>,
) -> Option<Seq<char>>;

/// Reads a string three object keys deep in a JSON document.
///
/// Relies on serde_json's `from_slice`, `Value::get` and `Value::as_str`:
/// parsing and object lookup are pure functions of the bytes and keys.
#[verifier::external_body]
pub fn json_str3(bytes: &Vec<u8>, k0: &str, k1: &str, k2: &str) -> (r: Option<String>)
    ensures
        r.deep_view() == json_str3_of(bytes@, k0@, k1@, k2@),
{
    let v: serde_json::Value = serde_json::from_slice(bytes).ok()?;
    let s = v.get(k0)?.get(k1)?.get(k2)?.as_str()?;
    Some(s.to_owned())
}

/// The string found by parsing `bytes` as JSON and reading the object keys
/// `k0` through `k4`, or `None` if parsing fails, a key is absent, or the
/// final value is not a string.
pub uninterp spec fn json_str5_of(
    bytes: Seq<u8>,
    k0: Seq<char>,
    k1: Seq<char>,
    k2: Seq<char>,
    k3: Seq<char>,
    k4: Seq<char>,
) -> Option<Seq<char>>;

/// Reads a string five object keys deep in a JSON document.
///
/// Relies on serde_json's `from_slice`, `Value::get` and `Value::as_str`:
/// parsing and object lookup are pure functions of the bytes and keys.
#[verifier::external_body]
pub fn json_str5(bytes: &Vec<u8>, k0: &str, k1: &str, k2: &str, k3: &str, k4: &str) -> (r: Option<
    String,
>)
    ensures
        r.deep_view() == json_str5_of(bytes@, k0@, k1@, k2@, k3@, k4@),
{
    let v: serde_json::Value = serde_json::from_slice(bytes).ok()?;
    let s = v.get(k0)?.get(k1)?.get(k2)?.get(k3)?.get(k4)?.as_str()?;
    Some(s.to_owned())
}

/// The unsigned integer found by parsing `bytes` as JSON and reading the
/// object keys `k0`, then `k1`, then `k2`, or `None` if parsing fails, a key
/// is absent, or the final value is not an unsigned 64-bit number.
pub uninterp spec fn json_u64_3_of(
    bytes: Seq<u8>,
    k0: Seq<char>,
    k1: Seq<char>,
    k2: Seq<char>,
) -> Option<u64>;

/// Reads an unsigned integer three object keys deep in a JSON document.
///
/// Relies on serde_json's `from_slice`, `Value::get` and `Value::as_u64`:
/// parsing and object lookup are pure functions of the bytes and keys.
#[verifier::external_body]
pub fn json_u64_3(bytes: &Vec<u8>, k0: &str, k1: &str, k2: &str) -> (r: Option<u64>)
    ensures
        r == json_u64_3_of(bytes@, k0@, k1@, k2@),
{
    let v: serde_json::Value = serde_json::from_slice(bytes).ok()?;
    v.get(k0)?.get(k1)?.get(k2)?.as_u64()
}

} // verus!
