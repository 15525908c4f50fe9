//! The error taxonomy and the classification of daemon-reported failures.

use vstd::prelude::*;
use vstd::string::{to_string_from_display_ensures, StringExecFns};

use exonum_jsonrpc::Error as RpcError;
use serde_json::Value;

use crate::outside::{json_i64, json_pointer, json_text, payload_error, rpc_payload, split_payload};

verus! {

/// A failure of an RPC call, classified by the daemon's error code where it has one.
#[derive(Debug)]
pub enum ClientError {
    NoInformation(String),
    Memory(String),
    TransactionIncorrect(String),
    TransactionRejected(String),
    InsufficientFunds,
    WalletError(String),
    InvalidAmount,
    TransactionAlreadyInChain,
    /// A failure of the JSON-RPC layer, or a daemon error that no kind matches.
    Rpc(RpcError),
    /// A local I/O failure.
    Other(std::io::Error),
}

/// The mathematical model of a [`ClientError`].
pub enum ErrorView {
    NoInformation(Seq<char>),
    Memory(Seq<char>),
    TransactionIncorrect(Seq<char>),
    TransactionRejected(Seq<char>),
    InsufficientFunds,
    WalletError(Seq<char>),
    InvalidAmount,
    TransactionAlreadyInChain,
    /// A daemon error left unclassified, with its payload as the daemon sent it.
    Daemon(Value),
    /// Any other failure of the JSON-RPC layer.
    Transport(RpcError),
    Other(std::io::Error),
}

impl View for ClientError {
    type V = ErrorView;

    open spec fn view(&self) -> ErrorView {
        match self {
            ClientError::NoInformation(m) => ErrorView::NoInformation(m@),
            ClientError::Memory(m) => ErrorView::Memory(m@),
            ClientError::TransactionIncorrect(m) => ErrorView::TransactionIncorrect(m@),
            ClientError::TransactionRejected(m) => ErrorView::TransactionRejected(m@),
            ClientError::InsufficientFunds => ErrorView::InsufficientFunds,
            ClientError::WalletError(m) => ErrorView::WalletError(m@),
            ClientError::InvalidAmount => ErrorView::InvalidAmount,
            ClientError::TransactionAlreadyInChain => ErrorView::TransactionAlreadyInChain,
            ClientError::Rpc(e) => match rpc_payload(*e) {
                Some(v) => ErrorView::Daemon(v),
                None => ErrorView::Transport(*e),
            },
            ClientError::Other(e) => ErrorView::Other(*e),
        }
    }
}

/// The kind that the daemon's error code `code` stands for, with the daemon's
/// message where the kind carries one; `None` for a code outside the table.
pub open spec fn code_kind(code: i64, message: Seq<char>) -> Option<ErrorView> {
    if code == -3 {
        Some(ErrorView::InvalidAmount)
    } else if code == -4 {
        Some(ErrorView::WalletError(message))
    } else if code == -5 {
        Some(ErrorView::NoInformation(message))
    } else if code == -6 {
        Some(ErrorView::InsufficientFunds)
    } else if code == -7 {
        Some(ErrorView::Memory(message))
    } else if code == -25 {
        Some(ErrorView::TransactionIncorrect(message))
    } else if code == -26 {
        Some(ErrorView::TransactionRejected(message))
    } else if code == -27 {
        Some(ErrorView::TransactionAlreadyInChain)
    } else {
        None
    }
}

/// A missing message reads as the empty one.
pub open spec fn message_or_empty(message: Option<Seq<char>>) -> Seq<char> {
    match message {
        Some(m) => m,
        None => Seq::empty(),
    }
}

/// The classification of a daemon error with the given code and message fields:
/// the kind of the code where the table has one, else the payload left as it is.
pub open spec fn daemon_error(code: Option<i64>, message: Option<Seq<char>>, payload: Value) -> ErrorView {
    match code {
        Some(c) => match code_kind(c, message_or_empty(message)) {
            Some(k) => k,
            None => ErrorView::Daemon(payload),
        },
        None => ErrorView::Daemon(payload),
    }
}

/// The `code` field of a daemon error payload, where it is an integer.
pub open spec fn payload_code(payload: Value) -> Option<i64> {
    match json_pointer(payload, seq!['/', 'c', 'o', 'd', 'e']) {
        Some(c) => json_i64(c),
        None => None,
    }
}

/// The `message` field of a daemon error payload, where it is a string.
pub open spec fn payload_message(payload: Value) -> Option<Seq<char>> {
    match json_pointer(payload, seq!['/', 'm', 'e', 's', 's', 'a', 'g', 'e']) {
        Some(m) => json_text(m),
        None => None,
    }
}

/// The classification of any failure of the JSON-RPC layer.
pub open spec fn classify(e: RpcError) -> ErrorView {
    match rpc_payload(e) {
        Some(v) => daemon_error(payload_code(v), payload_message(v), v),
        None => ErrorView::Transport(e),
    }
}

/// Whether the table gives `code` a kind.
pub open spec fn is_table_code(code: i64) -> bool {
    code == -3 || code == -4 || code == -5 || code == -6 || code == -7 || code == -25 || code
        == -26 || code == -27
}

/// Each code of the table gives exactly its kind, carrying the daemon's message
/// where the kind holds one; any other code, or none, leaves the daemon's error
/// as it was sent.
pub proof fn lemma_code_table(code: i64, message: Seq<char>, payload: Value)
    ensures
        code == -3 ==> daemon_error(Some(code), Some(message), payload) == ErrorView::InvalidAmount,
        code == -4 ==> daemon_error(Some(code), Some(message), payload) == ErrorView::WalletError(
            message,
        ),
        code == -5 ==> daemon_error(Some(code), Some(message), payload)
            == ErrorView::NoInformation(message),
        code == -6 ==> daemon_error(Some(code), Some(message), payload)
            == ErrorView::InsufficientFunds,
        code == -7 ==> daemon_error(Some(code), Some(message), payload) == ErrorView::Memory(
            message,
        ),
        code == -25 ==> daemon_error(Some(code), Some(message), payload)
            == ErrorView::TransactionIncorrect(message),
        code == -26 ==> daemon_error(Some(code), Some(message), payload)
            == ErrorView::TransactionRejected(message),
        code == -27 ==> daemon_error(Some(code), Some(message), payload)
            == ErrorView::TransactionAlreadyInChain,
        !is_table_code(code) ==> daemon_error(Some(code), Some(message), payload)
            == ErrorView::Daemon(payload),
        daemon_error(None, Some(message), payload) == ErrorView::Daemon(payload),
{
}

/// A daemon error whose code lies outside the table comes back as the escape
/// kind holding the daemon's payload itself, so that its code and message read
/// back unchanged.
pub proof fn lemma_unmapped_code_kept(e: RpcError, payload: Value, code: i64)
    requires
        rpc_payload(e) == Some(payload),
        payload_code(payload) == Some(code),
        !is_table_code(code),
    ensures
        classify(e) == ErrorView::Daemon(payload),
        payload_code(payload) == Some(code),
{
}

/// A daemon error with a code and no message is classified as if its message
/// were empty.
pub proof fn lemma_missing_message(e: RpcError, payload: Value, code: i64)
    requires
        rpc_payload(e) == Some(payload),
        payload_code(payload) == Some(code),
        payload_message(payload) is None,
    ensures
        classify(e) == daemon_error(Some(code), Some(Seq::<char>::empty()), payload),
{
}

/// The text of an optional string.
pub open spec fn opt_view(s: Option<String>) -> Option<Seq<char>> {
    match s {
        Some(t) => Some(t@),
        None => None,
    }
}

impl ClientError {
    /// A `TransactionIncorrect` error for a transaction found malformed locally.
    pub fn incorrect_transaction(s: String) -> (r: ClientError)
        ensures
            r@ == ErrorView::TransactionIncorrect(s@),
    {
        ClientError::TransactionIncorrect(s)
    }

    /// The kind that a daemon error code stands for, or `None` for a code outside the table.
    pub fn from_code(code: i64, message: String) -> (r: Option<ClientError>)
        ensures
            r is Some <==> code_kind(code, message@) is Some,
            r is Some ==> code_kind(code, message@) == Some(r->Some_0@),
    {
        match code {
            -3 => Some(ClientError::InvalidAmount),
            -4 => Some(ClientError::WalletError(message)),
            -5 => Some(ClientError::NoInformation(message)),
            -6 => Some(ClientError::InsufficientFunds),
            -7 => Some(ClientError::Memory(message)),
            -25 => Some(ClientError::TransactionIncorrect(message)),
            -26 => Some(ClientError::TransactionRejected(message)),
            -27 => Some(ClientError::TransactionAlreadyInChain),
            _ => None,
        }
    }

    /// Classifies a daemon error from its code and message fields; `payload` is
    /// the error as the daemon sent it, kept whole where no kind applies.
    pub fn from_daemon(code: Option<i64>, message: Option<String>, payload: Value) -> (r: ClientError)
        ensures
            r@ == daemon_error(code, opt_view(message), payload),
    {
        let msg = match message {
            Some(m) => m,
            None => String::new(),
        };
        proof {
            assert(msg@ == message_or_empty(opt_view(message)));
        }
        match code {
            Some(c) => match ClientError::from_code(c, msg) {
                Some(k) => k,
                None => ClientError::Rpc(payload_error(payload)),
            },
            None => ClientError::Rpc(payload_error(payload)),
        }
    }

    /// A human-readable text of the error, with the daemon's message where it
    /// gave one.
    pub fn describe(&self) -> (r: String)
        ensures
            self is NoInformation ==> r@ == "No information. "@ + self->NoInformation_0@,
            self is Memory ==> r@ == "Memory pool error. "@ + self->Memory_0@,
            self is TransactionIncorrect ==> r@ == "Transaction is incorrect. "@
                + self->TransactionIncorrect_0@,
            self is TransactionRejected ==> r@ == "Transaction rejected. "@
                + self->TransactionRejected_0@,
            self is InsufficientFunds ==> r@ == "Insufficient funds."@,
            self is WalletError ==> r@ == "Wallet error: "@ + self->WalletError_0@,
            self is InvalidAmount ==> r@ == "Invalid amount"@,
            self is TransactionAlreadyInChain ==> r@ == "Transaction already in chain."@,
            self is Rpc ==> to_string_from_display_ensures(&self->Rpc_0, r),
            self is Other ==> to_string_from_display_ensures(&self->Other_0, r),
    {
        match self {
            ClientError::NoInformation(m) => String::from_str("No information. ").concat(m.as_str()),
            ClientError::Memory(m) => String::from_str("Memory pool error. ").concat(m.as_str()),
            ClientError::TransactionIncorrect(m) => String::from_str(
                "Transaction is incorrect. ",
            ).concat(m.as_str()),
            ClientError::TransactionRejected(m) => String::from_str("Transaction rejected. ").concat(
                m.as_str(),
            ),
            ClientError::InsufficientFunds => String::from_str("Insufficient funds."),
            ClientError::WalletError(m) => String::from_str("Wallet error: ").concat(m.as_str()),
            ClientError::InvalidAmount => String::from_str("Invalid amount"),
            ClientError::TransactionAlreadyInChain => String::from_str(
                "Transaction already in chain.",
            ),
            ClientError::Rpc(e) => e.to_string(),
            ClientError::Other(e) => e.to_string(),
        }
    }

    /// Wraps a local I/O failure.
    pub fn from_io(e: std::io::Error) -> (r: ClientError)
        ensures
            r == ClientError::Other(e),
    {
        ClientError::Other(e)
    }

    /// Classifies a failure of the JSON-RPC layer: a daemon error by its code,
    /// any other failure wrapped as it is.
    pub fn from_rpc(e: RpcError) -> (r: ClientError)
        ensures
            r@ == classify(e),
            rpc_payload(e) is None ==> r == ClientError::Rpc(e),
    {
        match split_payload(e) {
            Ok(v) => {
                let code = match v.pointer("/code") {
                    Some(c) => c.as_i64(),
                    None => None,
                };
                let message = match v.pointer("/message") {
                    Some(m) => match m.as_str() {
                        Some(s) => Some(s.to_string()),
                        None => None,
                    },
                    None => None,
                };
                proof {
                    reveal_strlit("/code");
                    reveal_strlit("/message");
                    assert("/code"@ =~= seq!['/', 'c', 'o', 'd', 'e']);
                    assert("/message"@ =~= seq!['/', 'm', 'e', 's', 's', 'a', 'g', 'e']);
                }
                ClientError::from_daemon(code, message, v)
            },
            Err(other) => ClientError::Rpc(other),
        }
    }
}

impl From<std::io::Error> for ClientError {
    fn from(e: std::io::Error) -> (r: ClientError) {
        ClientError::Other(e)
    }
}

impl vstd::std_specs::convert::FromSpecImpl<std::io::Error> for ClientError {
    open spec fn obeys_from_spec() -> bool {
        true
    }

    open spec fn from_spec(e: std::io::Error) -> ClientError {
        ClientError::Other(e)
    }
}

} // verus!
