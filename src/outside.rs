//! Declarations of the outside types and functions that the library relies on.

use vstd::prelude::*;

use exonum_jsonrpc::Error as RpcError;
use exonum_jsonrpc::Response;
use serde::de::DeserializeOwned;
use serde_json::Value;

verus! {

#[verifier::external_type_specification]
#[verifier::external_body]
pub struct ExValue(serde_json::Value);

#[verifier::external_type_specification]
#[verifier::external_body]
pub struct ExRpcError(exonum_jsonrpc::error::Error);

#[verifier::external_type_specification]
#[verifier::external_body]
pub struct ExResponse(exonum_jsonrpc::Response);

#[verifier::external_type_specification]
#[verifier::external_body]
pub struct ExIoError(std::io::Error);

/// The value that a JSON pointer selects inside a JSON value.
pub uninterp spec fn json_pointer(v: Value, pointer: Seq<char>) -> Option<Value>;

/// The value of a JSON number as an `i64`, where it is one.
pub uninterp spec fn json_i64(v: Value) -> Option<i64>;

/// The text of a JSON string.
pub uninterp spec fn json_text(v: Value) -> Option<Seq<char>>;

/// The payload of a daemon-reported failure (`Error::Rpc`), where `e` is one.
pub uninterp spec fn rpc_payload(e: RpcError) -> Option<Value>;

/// Whether `e` reports a response with neither error nor result (`Error::NoErrorOrResult`).
pub uninterp spec fn rpc_no_result(e: RpcError) -> bool;

/// Whether `e` reports a result that did not decode into the requested shape (`Error::Json`).
pub uninterp spec fn rpc_decode_failure(e: RpcError) -> bool;

/// The `error` field of a response.
pub uninterp spec fn response_error(r: Response) -> Option<Value>;

/// The `result` field of a response.
pub uninterp spec fn response_result(r: Response) -> Option<Value>;

/// The JSON string of a text (`From<String>` of serde_json's `Value`).
pub uninterp spec fn json_of_str(s: Seq<char>) -> Value;

/// The JSON boolean of `b` (`From<bool>`).
pub uninterp spec fn json_of_bool(b: bool) -> Value;

/// The JSON number of `n` (`From<u64>`).
pub uninterp spec fn json_of_u64(n: u64) -> Value;

/// The JSON number of `n`, or null (`From<Option<u64>>`).
pub uninterp spec fn json_of_opt_u64(n: Option<u64>) -> Value;

/// The JSON array of the given values (`From<Vec<Value>>`).
pub uninterp spec fn json_of_values(vs: Seq<Value>) -> Value;

/// The JSON object of the given key and value pairs (`FromIterator<(String, Value)>`).
pub uninterp spec fn json_of_pairs(ps: Seq<(Seq<char>, Value)>) -> Value;

/// Relies on serde_json's `From<String> for Value`.
#[verifier::external_body]
pub(crate) fn text_value(s: String) -> (r: Value)
    ensures
        r == json_of_str(s@),
{
    Value::from(s)
}

/// Relies on serde_json's `From<bool> for Value`.
#[verifier::external_body]
pub(crate) fn bool_value(b: bool) -> (r: Value)
    ensures
        r == json_of_bool(b),
{
    Value::from(b)
}

/// Relies on serde_json's `From<u64> for Value`.
#[verifier::external_body]
pub(crate) fn u64_value(n: u64) -> (r: Value)
    ensures
        r == json_of_u64(n),
{
    Value::from(n)
}

/// Relies on serde_json's `From<Option<u64>> for Value`.
#[verifier::external_body]
pub(crate) fn opt_u64_value(n: Option<u64>) -> (r: Value)
    ensures
        r == json_of_opt_u64(n),
{
    Value::from(n)
}

/// Relies on serde_json's `From<Vec<Value>> for Value`.
#[verifier::external_body]
pub(crate) fn array_value(vs: Vec<Value>) -> (r: Value)
    ensures
        r == json_of_values(vs@),
{
    Value::from(vs)
}

/// Relies on serde_json's `FromIterator<(String, Value)> for Value`.
#[verifier::external_body]
pub(crate) fn object_value(ps: Vec<(String, Value)>) -> (r: Value)
    ensures
        r == json_of_pairs(ps@.map_values(|p: (String, Value)| (p.0@, p.1))),
{
    ps.into_iter().collect::<Value>()
}

/// Relies on serde_json's `Value::pointer`, which depends on the value and the pointer alone.
pub assume_specification<'a>[ serde_json::Value::pointer ](v: &'a Value, pointer: &str) -> (r: Option<&'a Value>)
    ensures
        r is Some <==> json_pointer(*v, pointer@) is Some,
        r is Some ==> json_pointer(*v, pointer@) == Some(*r.unwrap()),
;

/// Relies on serde_json's `Value::as_i64`: the integer of a number that fits in `i64`.
pub assume_specification[ serde_json::Value::as_i64 ](v: &Value) -> (r: Option<i64>)
    ensures
        r == json_i64(*v),
;

/// Relies on serde_json's `Value::as_str`: the text of a JSON string, `None` for any other value.
pub assume_specification<'a>[ serde_json::Value::as_str ](v: &'a Value) -> (r: Option<&'a str>)
    ensures
        r is Some <==> json_text(*v) is Some,
        r is Some ==> json_text(*v) == Some(r.unwrap()@),
;

/// Relies on the variants of exonum_jsonrpc's `Error`: moves the payload out of
/// `Error::Rpc` and hands any other variant back unchanged.
#[verifier::external_body]
pub(crate) fn split_payload(e: RpcError) -> (r: Result<Value, RpcError>)
    ensures
        r is Ok ==> rpc_payload(e) == Some(r->Ok_0),
        r is Err ==> r->Err_0 == e && rpc_payload(e) is None,
{
    match e {
        RpcError::Rpc(v) => Ok(v),
        other => Err(other),
    }
}

/// Relies on the variant `Error::Rpc` of exonum_jsonrpc, which holds the payload as it is.
#[verifier::external_body]
pub(crate) fn payload_error(v: Value) -> (r: RpcError)
    ensures
        rpc_payload(r) == Some(v),
{
    RpcError::Rpc(v)
}

/// Relies on the variant `Error::NoErrorOrResult` of exonum_jsonrpc.
#[verifier::external_body]
pub(crate) fn is_no_result(e: &RpcError) -> (r: bool)
    ensures
        r == rpc_no_result(*e),
{
    matches!(e, RpcError::NoErrorOrResult)
}

/// Relies on exonum_jsonrpc's `Response::into_result`: a present `error` comes back
/// as `Error::Rpc`; else a present `result` is decoded by serde, a failure coming
/// back as `Error::Json`; else `Error::NoErrorOrResult`.
#[verifier::external_body]
pub(crate) fn into_result<T: DeserializeOwned>(resp: Response) -> (r: Result<T, RpcError>)
    ensures
        response_error(resp) is Some ==> r is Err && rpc_payload(r->Err_0) == response_error(resp)
            && !rpc_no_result(r->Err_0),
        response_error(resp) is None && response_result(resp) is None ==> r is Err && rpc_no_result(
            r->Err_0,
        ) && rpc_payload(r->Err_0) is None,
        response_error(resp) is None && response_result(resp) is Some && r is Err
            ==> rpc_decode_failure(r->Err_0) && !rpc_no_result(r->Err_0) && rpc_payload(
            r->Err_0,
        ) is None,
{
    resp.into_result::<T>()
}

} // verus!
