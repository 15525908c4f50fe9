//! Shapes of the daemon's responses and of the arguments that calls take.

use vstd::prelude::*;

verus! {

/// What `validateaddress` tells of an address.
#[derive(Clone, Debug)]
pub struct ValidateAddressInfo {
    pub isvalid: bool,
    pub address: String,
    pub script_pubkey: String,
    pub isscript: bool,
    pub iswitness: bool,
    pub witness_version: Option<u64>,
    pub witness_program: Option<String>,
}

/// The address embedded in a script address.
#[derive(Clone, Debug)]
pub struct EmbeddedAddressInfo {
    pub isscript: bool,
    pub iswitness: bool,
    pub witness_version: u64,
    pub witness_program: String,
    pub pubkey: String,
    pub address: String,
    pub script_pubkey: String,
}

/// A label of an address and what it is for.
#[derive(Clone, Debug)]
pub struct LabelAddressInfo {
    pub name: String,
    pub purpose: String,
}

/// What `getaddressinfo` tells of an address.
#[derive(Clone, Debug)]
pub struct AddressInfo {
    pub address: String,
    pub script_pubkey: String,
    pub ismine: bool,
    pub iswatchonly: bool,
    pub isscript: bool,
    pub iswitness: bool,
    pub witness_version: u64,
    pub witness_program: Option<String>,
    pub script: Option<String>,
    pub hex: Option<String>,
    pub pubkeys: Option<Vec<String>>,
    pub sigsrequired: Option<u64>,
    pub pubkey: Option<String>,
    pub embedded: Option<EmbeddedAddressInfo>,
    pub iscompressed: bool,
    pub label: String,
    pub account: Option<String>,
    pub timestamp: Option<u64>,
    pub hdkeypath: Option<String>,
    pub hdseedid: Option<String>,
    pub hdmasterkeyid: Option<String>,
    pub labels: Vec<LabelAddressInfo>,
}

/// A multisignature address and its redeem script.
#[derive(Clone, Debug, PartialEq)]
pub struct MultiSig {
    pub address: String,
    pub redeem_script: String,
}

/// The signature script of a transaction input.
#[derive(Clone, Debug, PartialEq)]
pub struct ScriptSig {
    pub script_asm: String,
    pub hex: String,
}

/// The locking script of a transaction output.
#[derive(Clone, Debug, PartialEq)]
pub struct ScriptPubKey {
    pub script_asm: String,
    pub hex: String,
    pub req_sigs: Option<u64>,
    pub key_type: String,
    pub addresses: Option<Vec<String>>,
}

/// An input of a decoded transaction.
#[derive(Clone, Debug)]
pub struct TxIn {
    pub txid: String,
    pub vout: u32,
    pub script_sig: ScriptSig,
    pub sequence: u64,
    pub txinwitness: Option<Vec<String>>,
}

/// What `decodescript` tells of a script.
#[derive(Clone, Debug)]
pub struct ScriptInfo {
    pub script_asm: String,
    pub key_type: String,
    pub p2sh: String,
}

/// An output that a transaction to be signed spends.
#[derive(Clone, Debug)]
pub struct DependentOutput {
    pub txid: String,
    pub vout: u32,
    pub script_pubkey: String,
    pub redeem_script: String,
}

/// A failure to sign one input.
#[derive(Clone, Debug)]
pub struct SignTxOutputError {
    pub txid: String,
    pub vout: i32,
    pub script_sig: String,
    pub sequence: u32,
    pub error: String,
}

/// The result of signing a raw transaction.
#[derive(Clone, Debug)]
pub struct SignTxOutput {
    pub hex: String,
    pub complete: bool,
    pub errors: Option<Vec<SignTxOutputError>>,
}

/// An output to spend in a new raw transaction.
#[derive(Clone, Debug)]
pub struct TransactionInput {
    pub txid: String,
    pub vout: u32,
    pub sequence: Option<u64>,
}

/// An address and the amount, as decimal text, to pay it in a new raw transaction.
#[derive(Clone, Debug)]
pub struct TransactionOutput {
    pub address: String,
    pub value: String,
}

/// One entry of `listtransactions`.
#[derive(Clone, Debug)]
pub struct TransactionInfo {
    pub address: Option<String>,
    pub vout: u32,
    pub confirmations: u64,
    pub txid: String,
    pub abandoned: Option<bool>,
    pub time: u64,
}

} // verus!
