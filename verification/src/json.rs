use vstd::prelude::*;

verus! {

/// The integer that `serde_json` finds at member `key` of the JSON text
/// `payload`: `serde_json::from_slice::<Value>(payload)`, then `[key]`, then
/// `as_i64()`; `None` when the text is not JSON, the member is missing, or it
/// is not an integer that fits in an `i64`.
pub uninterp spec fn json_i64_member(payload: Seq<u8>, key: Seq<char>) -> Option<i64>;

/// The boolean that `serde_json` finds at member `key` of the JSON text
/// `payload` (`from_slice::<Value>`, `[key]`, `as_bool()`); `None` when the
/// text is not JSON, the member is missing, or it is not `true` or `false`.
pub uninterp spec fn json_bool_member(payload: Seq<u8>, key: Seq<char>) -> Option<bool>;

/// The string that `serde_json` finds at member `key` of the JSON text
/// `payload` (`from_slice::<Value>`, `[key]`, `as_str()`), unescaped; `None`
/// when the text is not JSON, the member is missing, or it is not a string.
pub uninterp spec fn json_str_member(payload: Seq<u8>, key: Seq<char>) -> Option<Seq<char>>;

/// Calls `serde_json::from_slice::<serde_json::Value>` on `payload` and
/// `Value::as_i64` on its member `key`. Trusted: the result is
/// `json_i64_member(payload, key)`, a function of the two arguments alone (the
/// parse is deterministic); nothing more is stated of it.
#[verifier::external_body]
pub(crate) fn read_i64_member(payload: &[u8], key: &str) -> (r: Option<i64>)
    ensures
        r == json_i64_member(payload@, key@),
{
    match serde_json::from_slice::<serde_json::Value>(payload) {
        Ok(message) => message[key].as_i64(),
        Err(_) => None,
    }
}

/// Calls `serde_json::from_slice::<serde_json::Value>` on `payload` and
/// `Value::as_bool` on its member `key`. Trusted: the result is
/// `json_bool_member(payload, key)`; nothing more is stated of it.
#[verifier::external_body]
pub(crate) fn read_bool_member(payload: &[u8], key: &str) -> (r: Option<bool>)
    ensures
        r == json_bool_member(payload@, key@),
{
    match serde_json::from_slice::<serde_json::Value>(payload) {
        Ok(message) => message[key].as_bool(),
        Err(_) => None,
    }
}

/// Calls `serde_json::from_slice::<serde_json::Value>` on `payload` and
/// `Value::as_str` on its member `key`, and copies the string out. Trusted:
/// the result's text is `json_str_member(payload, key)`; nothing more is
/// stated of it.
#[verifier::external_body]
pub(crate) fn read_str_member(payload: &[u8], key: &str) -> (r: Option<String>)
    ensures
        match r {
            Some(s) => json_str_member(payload@, key@) == Some(s@),
            None => json_str_member(payload@, key@) is None,
        },
{
    match serde_json::from_slice::<serde_json::Value>(payload) {
        Ok(message) => message[key].as_str().map(String::from),
        Err(_) => None,
    }
}

} // verus!
