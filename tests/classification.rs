use bitcoin_rpc::error::ClientError;
use exonum_jsonrpc::Error as RpcError;
use serde_json::Value;

fn daemon_payload(code: Option<i64>, message: Option<&str>) -> Value {
    let mut m = serde_json::Map::new();
    if let Some(c) = code {
        m.insert("code".to_string(), Value::from(c));
    }
    if let Some(s) = message {
        m.insert("message".to_string(), Value::from(s));
    }
    Value::Object(m)
}

fn classify(code: Option<i64>, message: Option<&str>) -> ClientError {
    ClientError::from_rpc(RpcError::Rpc(daemon_payload(code, message)))
}

#[test]
fn insufficient_funds_discards_message() {
    let e = classify(Some(-6), Some("Insufficient funds for fee"));
    assert!(matches!(e, ClientError::InsufficientFunds));
}

#[test]
fn incorrect_transaction_keeps_message() {
    let e = classify(Some(-25), Some("bad-txns-inputs-missingorspent"));
    match e {
        ClientError::TransactionIncorrect(m) => assert_eq!(m, "bad-txns-inputs-missingorspent"),
        other => panic!("unexpected {:?}", other),
    }
}

#[test]
fn unmapped_code_is_kept_verbatim() {
    let e = classify(Some(-999), Some("custom daemon error"));
    match e {
        ClientError::Rpc(RpcError::Rpc(v)) => {
            assert_eq!(v, daemon_payload(Some(-999), Some("custom daemon error")));
            assert_eq!(v.pointer("/code").and_then(Value::as_i64), Some(-999));
            assert_eq!(v.pointer("/message").and_then(Value::as_str), Some("custom daemon error"));
        }
        other => panic!("unexpected {:?}", other),
    }
}

#[test]
fn every_table_code_gives_its_kind() {
    assert!(matches!(classify(Some(-3), Some("x")), ClientError::InvalidAmount));
    assert!(matches!(classify(Some(-4), Some("w")), ClientError::WalletError(ref m) if m == "w"));
    assert!(matches!(classify(Some(-5), Some("n")), ClientError::NoInformation(ref m) if m == "n"));
    assert!(matches!(classify(Some(-6), Some("x")), ClientError::InsufficientFunds));
    assert!(matches!(classify(Some(-7), Some("p")), ClientError::Memory(ref m) if m == "p"));
    assert!(matches!(
        classify(Some(-25), Some("i")),
        ClientError::TransactionIncorrect(ref m) if m == "i"
    ));
    assert!(matches!(
        classify(Some(-26), Some("r")),
        ClientError::TransactionRejected(ref m) if m == "r"
    ));
    assert!(matches!(classify(Some(-27), Some("x")), ClientError::TransactionAlreadyInChain));
}

#[test]
fn missing_message_reads_as_empty() {
    assert!(matches!(classify(Some(-4), None), ClientError::WalletError(ref m) if m.is_empty()));
    assert!(matches!(classify(Some(-26), None), ClientError::TransactionRejected(ref m) if m.is_empty()));
    assert!(matches!(classify(Some(-3), None), ClientError::InvalidAmount));
}

#[test]
fn missing_code_is_kept_verbatim() {
    match classify(None, Some("no code")) {
        ClientError::Rpc(RpcError::Rpc(v)) => assert_eq!(v, daemon_payload(None, Some("no code"))),
        other => panic!("unexpected {:?}", other),
    }
}

#[test]
fn code_that_is_not_an_integer_is_kept_verbatim() {
    let mut m = serde_json::Map::new();
    m.insert("code".to_string(), Value::from("-6"));
    m.insert("message".to_string(), Value::from("text code"));
    let payload = Value::Object(m);
    match ClientError::from_rpc(RpcError::Rpc(payload.clone())) {
        ClientError::Rpc(RpcError::Rpc(v)) => assert_eq!(v, payload),
        other => panic!("unexpected {:?}", other),
    }
}

#[test]
fn transport_failures_pass_through() {
    assert!(matches!(
        ClientError::from_rpc(RpcError::NonceMismatch),
        ClientError::Rpc(RpcError::NonceMismatch)
    ));
    assert!(matches!(
        ClientError::from_rpc(RpcError::NoErrorOrResult),
        ClientError::Rpc(RpcError::NoErrorOrResult)
    ));
}

#[test]
fn from_code_covers_the_table_only() {
    assert!(matches!(
        ClientError::from_code(-7, "mempool full".to_string()),
        Some(ClientError::Memory(ref m)) if m == "mempool full"
    ));
    assert!(ClientError::from_code(-1, "misc".to_string()).is_none());
    assert!(ClientError::from_code(0, String::new()).is_none());
    assert!(ClientError::from_code(i64::MIN, String::new()).is_none());
}

#[test]
fn from_daemon_uses_fields_given() {
    let payload = daemon_payload(Some(-5), None);
    assert!(matches!(
        ClientError::from_daemon(Some(-5), None, payload.clone()),
        ClientError::NoInformation(ref m) if m.is_empty()
    ));
    match ClientError::from_daemon(Some(12), Some("other".to_string()), payload.clone()) {
        ClientError::Rpc(RpcError::Rpc(v)) => assert_eq!(v, payload),
        other => panic!("unexpected {:?}", other),
    }
}

#[test]
fn incorrect_transaction_constructor() {
    match ClientError::incorrect_transaction("bad input".to_string()) {
        ClientError::TransactionIncorrect(m) => assert_eq!(m, "bad input"),
        other => panic!("unexpected {:?}", other),
    }
}

#[test]
fn io_failures_are_wrapped() {
    let e = ClientError::from_io(std::io::Error::new(std::io::ErrorKind::NotFound, "cookie"));
    match e {
        ClientError::Other(inner) => assert_eq!(inner.kind(), std::io::ErrorKind::NotFound),
        other => panic!("unexpected {:?}", other),
    }
}

#[test]
fn io_failures_convert_with_from() {
    let e: ClientError = std::io::Error::new(std::io::ErrorKind::PermissionDenied, "x").into();
    assert!(matches!(e, ClientError::Other(ref inner) if inner.kind() == std::io::ErrorKind::PermissionDenied));
}

#[test]
fn descriptions_embed_the_daemon_message() {
    assert_eq!(ClientError::NoInformation("x".into()).describe(), "No information. x");
    assert_eq!(ClientError::Memory("x".into()).describe(), "Memory pool error. x");
    assert_eq!(
        ClientError::TransactionIncorrect("x".into()).describe(),
        "Transaction is incorrect. x"
    );
    assert_eq!(ClientError::TransactionRejected("x".into()).describe(), "Transaction rejected. x");
    assert_eq!(ClientError::InsufficientFunds.describe(), "Insufficient funds.");
    assert_eq!(ClientError::WalletError("x".into()).describe(), "Wallet error: x");
    assert_eq!(ClientError::InvalidAmount.describe(), "Invalid amount");
    assert_eq!(ClientError::TransactionAlreadyInChain.describe(), "Transaction already in chain.");
    assert_eq!(
        ClientError::Rpc(RpcError::NoErrorOrResult).describe(),
        "Response has neither error nor result"
    );
}
