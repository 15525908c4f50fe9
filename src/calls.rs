//! The envelope of each call that the client makes: the daemon's method name
//! and its positional parameters, in the order that the daemon documents.

use vstd::prelude::*;
use vstd::string::StringExecFns;

use serde_json::Value;

use crate::outside::{
    array_value, bool_value, json_of_bool, json_of_opt_u64, json_of_pairs, json_of_str,
    json_of_u64, json_of_values, object_value, opt_u64_value, text_value, u64_value,
};
use crate::types::{DependentOutput, TransactionInput, TransactionOutput};

verus! {

/// A method name and the positional parameters to send with it.
pub struct Call {
    pub method: String,
    pub params: Vec<Value>,
}

/// The JSON array of the given texts.
pub open spec fn texts(xs: Seq<String>) -> Value {
    json_of_values(xs.map_values(|s: String| json_of_str(s@)))
}

/// The JSON object that stands for an output to spend.
pub open spec fn input_json(t: TransactionInput) -> Value {
    json_of_pairs(
        seq![
            (seq!['t', 'x', 'i', 'd'], json_of_str(t.txid@)),
            (seq!['v', 'o', 'u', 't'], json_of_u64(t.vout as u64)),
            (seq!['s', 'e', 'q', 'u', 'e', 'n', 'c', 'e'], json_of_opt_u64(t.sequence)),
        ],
    )
}

/// The JSON object that stands for an output that a transaction to sign spends.
pub open spec fn dependent_json(d: DependentOutput) -> Value {
    json_of_pairs(
        seq![
            (seq!['t', 'x', 'i', 'd'], json_of_str(d.txid@)),
            (seq!['v', 'o', 'u', 't'], json_of_u64(d.vout as u64)),
            (
                seq!['s', 'c', 'r', 'i', 'p', 't', 'P', 'u', 'b', 'K', 'e', 'y'],
                json_of_str(d.script_pubkey@),
            ),
            (
                seq!['r', 'e', 'd', 'e', 'e', 'm', 'S', 'c', 'r', 'i', 'p', 't'],
                json_of_str(d.redeem_script@),
            ),
        ],
    )
}

/// The entries of the object of payments: each output's address with its
/// amount, then the data entry where there is one.
pub open spec fn payment_pairs(outputs: Seq<TransactionOutput>, data: Option<Seq<char>>) -> Seq<
    (Seq<char>, Value),
> {
    let ps = outputs.map_values(|o: TransactionOutput| (o.address@, json_of_str(o.value@)));
    match data {
        Some(d) => ps.push((seq!['d', 'a', 't', 'a'], json_of_str(d))),
        None => ps,
    }
}

fn text(s: &str) -> (r: Value)
    ensures
        r == json_of_str(s@),
{
    text_value(String::from_str(s))
}

fn text_array(xs: &[String]) -> (r: Value)
    ensures
        r == texts(xs@),
{
    let mut vs: Vec<Value> = Vec::new();
    let mut i: usize = 0;
    while i < xs.len()
        invariant
            i <= xs@.len(),
            vs@ == xs@.subrange(0, i as int).map_values(|s: String| json_of_str(s@)),
        decreases xs@.len() - i,
    {
        vs.push(text_value(xs[i].clone()));
        i = i + 1;
        assert(vs@ =~= xs@.subrange(0, i as int).map_values(|s: String| json_of_str(s@)));
    }
    assert(xs@.subrange(0, xs@.len() as int) =~= xs@);
    array_value(vs)
}

fn field(name: &str, v: Value) -> (r: (String, Value))
    ensures
        r.0@ == name@,
        r.1 == v,
{
    (String::from_str(name), v)
}

fn input_value(t: &TransactionInput) -> (r: Value)
    ensures
        r == input_json(*t),
{
    let ps = vec![
        field("txid", text_value(t.txid.clone())),
        field("vout", u64_value(t.vout as u64)),
        field("sequence", opt_u64_value(t.sequence)),
    ];
    proof {
        reveal_strlit("txid");
        reveal_strlit("vout");
        reveal_strlit("sequence");
        assert(ps@.map_values(|p: (String, Value)| (p.0@, p.1)) =~~= seq![
            (seq!['t', 'x', 'i', 'd'], json_of_str(t.txid@)),
            (seq!['v', 'o', 'u', 't'], json_of_u64(t.vout as u64)),
            (seq!['s', 'e', 'q', 'u', 'e', 'n', 'c', 'e'], json_of_opt_u64(t.sequence)),
        ]);
    }
    object_value(ps)
}

fn dependent_value(d: &DependentOutput) -> (r: Value)
    ensures
        r == dependent_json(*d),
{
    let ps = vec![
        field("txid", text_value(d.txid.clone())),
        field("vout", u64_value(d.vout as u64)),
        field("scriptPubKey", text_value(d.script_pubkey.clone())),
        field("redeemScript", text_value(d.redeem_script.clone())),
    ];
    proof {
        reveal_strlit("txid");
        reveal_strlit("vout");
        reveal_strlit("scriptPubKey");
        reveal_strlit("redeemScript");
        assert(ps@.map_values(|p: (String, Value)| (p.0@, p.1)) =~~= seq![
            (seq!['t', 'x', 'i', 'd'], json_of_str(d.txid@)),
            (seq!['v', 'o', 'u', 't'], json_of_u64(d.vout as u64)),
            (
                seq!['s', 'c', 'r', 'i', 'p', 't', 'P', 'u', 'b', 'K', 'e', 'y'],
                json_of_str(d.script_pubkey@),
            ),
            (
                seq!['r', 'e', 'd', 'e', 'e', 'm', 'S', 'c', 'r', 'i', 'p', 't'],
                json_of_str(d.redeem_script@),
            ),
        ]);
    }
    object_value(ps)
}

fn input_array(ts: &[TransactionInput]) -> (r: Value)
    ensures
        r == json_of_values(ts@.map_values(|t: TransactionInput| input_json(t))),
{
    let mut vs: Vec<Value> = Vec::new();
    let mut i: usize = 0;
    while i < ts.len()
        invariant
            i <= ts@.len(),
            vs@ == ts@.subrange(0, i as int).map_values(|t: TransactionInput| input_json(t)),
        decreases ts@.len() - i,
    {
        vs.push(input_value(&ts[i]));
        i = i + 1;
        assert(vs@ =~= ts@.subrange(0, i as int).map_values(|t: TransactionInput| input_json(t)));
    }
    assert(ts@.subrange(0, ts@.len() as int) =~= ts@);
    array_value(vs)
}

fn dependent_array(ds: &[DependentOutput]) -> (r: Value)
    ensures
        r == json_of_values(ds@.map_values(|d: DependentOutput| dependent_json(d))),
{
    let mut vs: Vec<Value> = Vec::new();
    let mut i: usize = 0;
    while i < ds.len()
        invariant
            i <= ds@.len(),
            vs@ == ds@.subrange(0, i as int).map_values(|d: DependentOutput| dependent_json(d)),
        decreases ds@.len() - i,
    {
        vs.push(dependent_value(&ds[i]));
        i = i + 1;
        assert(vs@ =~= ds@.subrange(0, i as int).map_values(
            |d: DependentOutput| dependent_json(d),
        ));
    }
    assert(ds@.subrange(0, ds@.len() as int) =~= ds@);
    array_value(vs)
}

fn payments(outputs: &[TransactionOutput], data: Option<String>) -> (r: Value)
    ensures
        r == json_of_pairs(
            payment_pairs(
                outputs@,
                match data {
                    Some(d) => Some(d@),
                    None => None,
                },
            ),
        ),
{
    let mut ps: Vec<(String, Value)> = Vec::new();
    let mut i: usize = 0;
    while i < outputs.len()
        invariant
            i <= outputs@.len(),
            ps@.len() == i,
            forall|j: int|
                0 <= j < i ==> #[trigger] ps@[j].0@ == outputs@[j].address@ && ps@[j].1
                    == json_of_str(outputs@[j].value@),
        decreases outputs@.len() - i,
    {
        let o = &outputs[i];
        ps.push((o.address.clone(), text_value(o.value.clone())));
        i = i + 1;
    }
    assert(ps@.map_values(|p: (String, Value)| (p.0@, p.1)) =~~= outputs@.map_values(
        |o: TransactionOutput| (o.address@, json_of_str(o.value@)),
    ));
    match data {
        Some(d) => {
            let ghost before = ps@;
            ps.push(field("data", text_value(d)));
            proof {
                reveal_strlit("data");
                assert(ps@.map_values(|p: (String, Value)| (p.0@, p.1)) =~~= before.map_values(
                    |p: (String, Value)| (p.0@, p.1),
                ).push((seq!['d', 'a', 't', 'a'], json_of_str(d@))));
            }
        },
        None => {},
    }
    object_value(ps)
}

impl Call {
    /// Whether the call names `method` with exactly `params`.
    pub open spec fn is(self, method: Seq<char>, params: Seq<Value>) -> bool {
        self.method@ =~= method && self.params@ =~= params
    }

    fn with(method: &str, params: Vec<Value>) -> (r: Call)
        ensures
            r.is(method@, params@),
    {
        Call { method: String::from_str(method), params }
    }

    pub fn getinfo() -> (r: Call)
        ensures
            r.is("getinfo"@, seq![]),
    {
        Call::with("getinfo", vec![])
    }

    pub fn getnewaddress(account: &str) -> (r: Call)
        ensures
            r.is("getnewaddress"@, seq![json_of_str(account@)]),
    {
        Call::with("getnewaddress", vec![text(account)])
    }

    pub fn getnewaddress_legacy(account: &str) -> (r: Call)
        ensures
            r.is("getnewaddress"@, seq![json_of_str(account@), json_of_str("legacy"@)]),
    {
        Call::with("getnewaddress", vec![text(account), text("legacy")])
    }

    pub fn validateaddress(addr: &str) -> (r: Call)
        ensures
            r.is("validateaddress"@, seq![json_of_str(addr@)]),
    {
        Call::with("validateaddress", vec![text(addr)])
    }

    pub fn getaddressinfo(addr: &str) -> (r: Call)
        ensures
            r.is("getaddressinfo"@, seq![json_of_str(addr@)]),
    {
        Call::with("getaddressinfo", vec![text(addr)])
    }

    pub fn createmultisig(signs: u8, addrs: &[String]) -> (r: Call)
        ensures
            r.is("createmultisig"@, seq![json_of_u64(signs as u64), texts(addrs@)]),
    {
        Call::with("createmultisig", vec![u64_value(signs as u64), text_array(addrs)])
    }

    pub fn sendtoaddress(addr: &str, amount: &str) -> (r: Call)
        ensures
            r.is("sendtoaddress"@, seq![json_of_str(addr@), json_of_str(amount@)]),
    {
        Call::with("sendtoaddress", vec![text(addr), text(amount)])
    }

    /// The raw transaction as hex.
    pub fn getrawtransaction(txid: &str) -> (r: Call)
        ensures
            r.is("getrawtransaction"@, seq![json_of_str(txid@), json_of_u64(0)]),
    {
        Call::with("getrawtransaction", vec![text(txid), u64_value(0)])
    }

    /// The raw transaction decoded.
    pub fn getrawtransaction_verbose(txid: &str) -> (r: Call)
        ensures
            r.is("getrawtransaction"@, seq![json_of_str(txid@), json_of_u64(1)]),
    {
        Call::with("getrawtransaction", vec![text(txid), u64_value(1)])
    }

    pub fn createrawtransaction(
        transactions: &[TransactionInput],
        outputs: &[TransactionOutput],
        data: Option<String>,
    ) -> (r: Call)
        ensures
            r.is(
                "createrawtransaction"@,
                seq![
                    json_of_values(transactions@.map_values(|t: TransactionInput| input_json(t))),
                    json_of_pairs(
                        payment_pairs(
                            outputs@,
                            match data {
                                Some(d) => Some(d@),
                                None => None,
                            },
                        ),
                    ),
                ],
            ),
    {
        Call::with("createrawtransaction", vec![input_array(transactions), payments(outputs, data)])
    }

    pub fn dumpprivkey(pub_key: &str) -> (r: Call)
        ensures
            r.is("dumpprivkey"@, seq![json_of_str(pub_key@)]),
    {
        Call::with("dumpprivkey", vec![text(pub_key)])
    }

    pub fn signrawtransaction(
        txhex: &str,
        outputs: &[DependentOutput],
        priv_keys: &[String],
    ) -> (r: Call)
        ensures
            r.is(
                "signrawtransaction"@,
                seq![
                    json_of_str(txhex@),
                    json_of_values(outputs@.map_values(|d: DependentOutput| dependent_json(d))),
                    texts(priv_keys@),
                ],
            ),
    {
        Call::with(
            "signrawtransaction",
            vec![text(txhex), dependent_array(outputs), text_array(priv_keys)],
        )
    }

    /// As [`Call::signrawtransaction`], signing with the `ALL` hash type.
    pub fn signrawtransaction_all(
        txhex: &str,
        outputs: &[DependentOutput],
        priv_keys: &[String],
    ) -> (r: Call)
        ensures
            r.is(
                "signrawtransaction"@,
                seq![
                    json_of_str(txhex@),
                    json_of_values(outputs@.map_values(|d: DependentOutput| dependent_json(d))),
                    texts(priv_keys@),
                    json_of_str("ALL"@),
                ],
            ),
    {
        Call::with(
            "signrawtransaction",
            vec![text(txhex), dependent_array(outputs), text_array(priv_keys), text("ALL")],
        )
    }

    pub fn sendrawtransaction(txhex: &str) -> (r: Call)
        ensures
            r.is("sendrawtransaction"@, seq![json_of_str(txhex@)]),
    {
        Call::with("sendrawtransaction", vec![text(txhex)])
    }

    pub fn decoderawtransaction(txhex: &str) -> (r: Call)
        ensures
            r.is("decoderawtransaction"@, seq![json_of_str(txhex@)]),
    {
        Call::with("decoderawtransaction", vec![text(txhex)])
    }

    pub fn addwitnessaddress(addr: &str) -> (r: Call)
        ensures
            r.is("addwitnessaddress"@, seq![json_of_str(addr@)]),
    {
        Call::with("addwitnessaddress", vec![text(addr)])
    }

    /// The transactions of every account.
    pub fn listtransactions(count: u32, from: u32, include_watch_only: bool) -> (r: Call)
        ensures
            r.is(
                "listtransactions"@,
                seq![
                    json_of_str("*"@),
                    json_of_u64(count as u64),
                    json_of_u64(from as u64),
                    json_of_bool(include_watch_only),
                ],
            ),
    {
        Call::with(
            "listtransactions",
            vec![
                text("*"),
                u64_value(count as u64),
                u64_value(from as u64),
                bool_value(include_watch_only),
            ],
        )
    }

    pub fn listunspent(min_confirmations: u32, max_confirmations: u32, addresses: &[String]) -> (r:
        Call)
        ensures
            r.is(
                "listunspent"@,
                seq![
                    json_of_u64(min_confirmations as u64),
                    json_of_u64(max_confirmations as u64),
                    texts(addresses@),
                ],
            ),
    {
        Call::with(
            "listunspent",
            vec![
                u64_value(min_confirmations as u64),
                u64_value(max_confirmations as u64),
                text_array(addresses),
            ],
        )
    }

    pub fn importaddress(addr: &str, label: &str, rescan: bool, p2sh: bool) -> (r: Call)
        ensures
            r.is(
                "importaddress"@,
                seq![
                    json_of_str(addr@),
                    json_of_str(label@),
                    json_of_bool(rescan),
                    json_of_bool(p2sh),
                ],
            ),
    {
        Call::with(
            "importaddress",
            vec![text(addr), text(label), bool_value(rescan), bool_value(p2sh)],
        )
    }

    /// The form of `importaddress` that Zcash daemons take, without `p2sh`.
    pub fn importaddress_zcash(addr: &str, label: &str, rescan: bool) -> (r: Call)
        ensures
            r.is(
                "importaddress"@,
                seq![json_of_str(addr@), json_of_str(label@), json_of_bool(rescan)],
            ),
    {
        Call::with("importaddress", vec![text(addr), text(label), bool_value(rescan)])
    }

    pub fn generate(nblocks: u64, maxtries: u64) -> (r: Call)
        ensures
            r.is("generate"@, seq![json_of_u64(nblocks), json_of_u64(maxtries)]),
    {
        Call::with("generate", vec![u64_value(nblocks), u64_value(maxtries)])
    }

    pub fn generatetoaddress(nblocks: u64, addr: &str, maxtries: u64) -> (r: Call)
        ensures
            r.is(
                "generatetoaddress"@,
                seq![json_of_u64(nblocks), json_of_str(addr@), json_of_u64(maxtries)],
            ),
    {
        Call::with("generatetoaddress", vec![u64_value(nblocks), text(addr), u64_value(maxtries)])
    }

    pub fn stop() -> (r: Call)
        ensures
            r.is("stop"@, seq![]),
    {
        Call::with("stop", vec![])
    }

    pub fn getreceivedbyaddress(addr: &str, minconf: u64) -> (r: Call)
        ensures
            r.is("getreceivedbyaddress"@, seq![json_of_str(addr@), json_of_u64(minconf)]),
    {
        Call::with("getreceivedbyaddress", vec![text(addr), u64_value(minconf)])
    }

    pub fn gettransaction(txid: &str) -> (r: Call)
        ensures
            r.is("gettransaction"@, seq![json_of_str(txid@)]),
    {
        Call::with("gettransaction", vec![text(txid)])
    }

    pub fn getblockcount() -> (r: Call)
        ensures
            r.is("getblockcount"@, seq![]),
    {
        Call::with("getblockcount", vec![])
    }

    pub fn getbestblockhash() -> (r: Call)
        ensures
            r.is("getbestblockhash"@, seq![]),
    {
        Call::with("getbestblockhash", vec![])
    }

    pub fn getblockhash(height: u64) -> (r: Call)
        ensures
            r.is("getblockhash"@, seq![json_of_u64(height)]),
    {
        Call::with("getblockhash", vec![u64_value(height)])
    }

    /// The block as hex.
    pub fn getblock(hash: &str) -> (r: Call)
        ensures
            r.is("getblock"@, seq![json_of_str(hash@), json_of_u64(0)]),
    {
        Call::with("getblock", vec![text(hash), u64_value(0)])
    }

    pub fn decodescript(script: &str) -> (r: Call)
        ensures
            r.is("decodescript"@, seq![json_of_str(script@)]),
    {
        Call::with("decodescript", vec![text(script)])
    }

    pub fn listreceivedbyaddress(confirmations: u64, include_empty: bool, watch_only: bool) -> (r:
        Call)
        ensures
            r.is(
                "listreceivedbyaddress"@,
                seq![
                    json_of_u64(confirmations),
                    json_of_bool(include_empty),
                    json_of_bool(watch_only),
                ],
            ),
    {
        Call::with(
            "listreceivedbyaddress",
            vec![u64_value(confirmations), bool_value(include_empty), bool_value(watch_only)],
        )
    }
}

} // verus!
