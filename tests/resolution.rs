use bitcoin_rpc::calls::Call;
use bitcoin_rpc::dispatch::{resolve, resolve_acknowledged, resolve_optional};
use bitcoin_rpc::error::ClientError;
use exonum_jsonrpc::Error as RpcError;
use exonum_jsonrpc::Response;
use serde_json::Value;

fn response(result: Option<Value>, error: Option<Value>) -> Response {
    Response { result, error, id: Value::from(1) }
}

fn daemon_error(code: i64, message: &str) -> Value {
    let mut m = serde_json::Map::new();
    m.insert("code".to_string(), Value::from(code));
    m.insert("message".to_string(), Value::from(message));
    Value::Object(m)
}

#[test]
fn getblockcount_result_decodes() {
    let call = Call::getblockcount();
    assert_eq!(call.method, "getblockcount");
    assert!(call.params.is_empty());
    let r: Result<u64, ClientError> = resolve(response(Some(Value::from(123456u64)), None));
    assert_eq!(r.unwrap(), 123456);
}

#[test]
fn daemon_error_is_classified() {
    let r: Result<String, ClientError> = resolve(response(None, Some(daemon_error(-26, "dust"))));
    assert!(matches!(r, Err(ClientError::TransactionRejected(ref m)) if m == "dust"));
}

#[test]
fn error_wins_over_result() {
    let r: Result<u64, ClientError> =
        resolve(response(Some(Value::from(5u64)), Some(daemon_error(-6, "funds"))));
    assert!(matches!(r, Err(ClientError::InsufficientFunds)));
}

#[test]
fn shape_mismatch_is_escape_kind() {
    let r: Result<u64, ClientError> = resolve(response(Some(Value::from("not a number")), None));
    assert!(matches!(r, Err(ClientError::Rpc(RpcError::Json(_)))));
    let r: Result<Vec<String>, ClientError> = resolve(response(Some(Value::from(true)), None));
    assert!(matches!(r, Err(ClientError::Rpc(RpcError::Json(_)))));
}

#[test]
fn empty_response_with_mandatory_shape_is_an_error() {
    let r: Result<bool, ClientError> = resolve(response(None, None));
    assert!(matches!(r, Err(ClientError::Rpc(RpcError::NoErrorOrResult))));
}

#[test]
fn empty_response_with_optional_shape_is_absent() {
    let r: Result<Option<bool>, ClientError> = resolve_optional(response(None, None));
    assert!(matches!(r, Ok(None)));
}

#[test]
fn optional_shape_keeps_present_values_and_errors() {
    let r: Result<Option<bool>, ClientError> =
        resolve_optional(response(Some(Value::from(true)), None));
    assert!(matches!(r, Ok(Some(true))));
    let r: Result<Option<bool>, ClientError> = resolve_optional(response(Some(Value::Null), None));
    assert!(matches!(r, Ok(None)));
    let r: Result<Option<bool>, ClientError> =
        resolve_optional(response(None, Some(daemon_error(-4, "locked"))));
    assert!(matches!(r, Err(ClientError::WalletError(ref m)) if m == "locked"));
    let r: Result<Option<bool>, ClientError> =
        resolve_optional(response(Some(Value::from("yes")), None));
    assert!(matches!(r, Err(ClientError::Rpc(RpcError::Json(_)))));
}

#[test]
fn acknowledgement_accepts_any_boolean_or_nothing() {
    assert!(resolve_acknowledged(response(None, None)).is_ok());
    assert!(resolve_acknowledged(response(Some(Value::Null), None)).is_ok());
    assert!(resolve_acknowledged(response(Some(Value::from(false)), None)).is_ok());
    assert!(resolve_acknowledged(response(Some(Value::from(true)), None)).is_ok());
    assert!(matches!(
        resolve_acknowledged(response(None, Some(daemon_error(-4, "watch-only")))),
        Err(ClientError::WalletError(ref m)) if m == "watch-only"
    ));
    assert!(matches!(
        resolve_acknowledged(response(Some(Value::from(3u64)), None)),
        Err(ClientError::Rpc(RpcError::Json(_)))
    ));
}
