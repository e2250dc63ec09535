//! JSON-RPC glue for the status poller: the fixed endpoints, verified
//! request construction, and field extraction from reply text. The JSON
//! tree comes from `serde_json` behind trusted declarations whose
//! contracts speak of [`json_view`]/[`json_doc`], a named model of the
//! tree; the readers here are specified exactly over that model, and the
//! extracted plain values are folded into the snapshot by the verified
//! functions of [`crate::status`].

use vstd::prelude::*;

use crate::text::{norm_u64_of, parse_u64_norm, str_eq};

verus! {

/// A balance as reported by a remote index service: raw chain units plus
/// the token's display parameters.
#[derive(Clone, Debug)]
pub struct BalanceView {
    pub address: String,
    /// Raw string value in chain units (e.g. plancks).
    pub free: String,
    /// Token symbol, e.g. `RES`.
    pub symbol: String,
    /// Token decimals, e.g. 12.
    pub decimals: u32,
}

/// Resolves the remote bootnode WebSocket endpoint for a chain; `None`
/// for chains without one (the mainnet placeholder included).
pub fn bootnode_ws_for_chain(chain: &str) -> (r: Option<&'static str>)
    ensures
        chain@ == "resonance"@ ==> (match r {
            Some(u) => u@ == "wss://a.t.res.fm"@,
            None => false,
        }),
        chain@ == "heisenberg"@ ==> (match r {
            Some(u) => u@ == "wss://a.i.res.fm"@,
            None => false,
        }),
        chain@ != "resonance"@ && chain@ != "heisenberg"@ ==> r is None,
{
    proof {
        reveal_strlit("resonance");
        reveal_strlit("heisenberg");
        assert("resonance"@.len() == 9);
        assert("heisenberg"@.len() == 10);
    }
    if str_eq(chain, "resonance") {
        Some("wss://a.t.res.fm")
    } else if str_eq(chain, "heisenberg") {
        Some("wss://a.i.res.fm")
    } else {
        None
    }
}

/// The local node's fixed JSON-RPC endpoint (substrate default).
pub fn local_ws_endpoint() -> (r: &'static str)
    ensures
        r@ == "ws://127.0.0.1:9944"@,
{
    "ws://127.0.0.1:9944"
}

/// Builds the text of a JSON-RPC 2.0 request with empty parameters, from
/// the request id (already in digits) and the method name.
pub fn rpc_request_text(id_digits: &str, method: &str) -> (r: String)
    ensures
        r@ == "{\"jsonrpc\":\"2.0\",\"id\":"@ + id_digits@ + ",\"method\":\""@ + method@
            + "\",\"params\":[]}"@,
{
    let mut s: String = "{\"jsonrpc\":\"2.0\",\"id\":".to_owned();
    s.append(id_digits);
    s.append(",\"method\":\"");
    s.append(method);
    s.append("\",\"params\":[]}");
    s
}

// --- trusted declarations for the serde_json value tree ---

#[verifier::external_type_specification]
#[verifier::external_body]
pub struct ExJsonValue(serde_json::Value);

/// The mathematical shape of a JSON value, as far as this supervisor
/// reads one: a number is described by what the two integral accessors
/// report of it, a string by its text, an object by the map of its
/// fields; array contents are never consulted here.
pub enum JsonV {
    Null,
    Bool(bool),
    Num { as_u64: Option<u64>, as_i64: Option<i64> },
    Str(Seq<char>),
    Arr,
    Obj(Map<Seq<char>, JsonV>),
}

/// What a serde_json value holds, as a [`JsonV`].
pub uninterp spec fn json_view(v: serde_json::Value) -> JsonV;

/// The value tree that parsing a text yields, `None` for ill-formed
/// JSON; the tree is a function of the text alone.
pub uninterp spec fn json_doc(s: Seq<char>) -> Option<JsonV>;

/// Relies on serde_json::from_str: parses JSON text into a value tree,
/// `None` when the text is not well-formed JSON.
#[verifier::external_body]
fn json_from_str(s: &str) -> (r: Option<serde_json::Value>)
    ensures
        (match r {
            Some(v) => json_doc(s@) == Some(json_view(v)),
            None => (json_doc(s@) is None),
        }),
{
    serde_json::from_str(s).ok()
}

/// Relies on serde_json::Value::get: looks a key up in a JSON object,
/// `None` when the value is no object or lacks the key.
#[verifier::external_body]
fn json_get<'a>(v: &'a serde_json::Value, key: &str) -> (r: Option<&'a serde_json::Value>)
    ensures
        (match r {
            Some(w) => (match json_view(*v) {
                JsonV::Obj(m) => m.contains_key(key@) && json_view(*w) == m[key@],
                _ => false,
            }),
            None => (match json_view(*v) {
                JsonV::Obj(m) => !m.contains_key(key@),
                _ => true,
            }),
        }),
{
    v.get(key)
}

/// Relies on serde_json::Value::as_u64: the value of an integral JSON
/// number that fits in a `u64`.
#[verifier::external_body]
fn json_as_u64(v: &serde_json::Value) -> (r: Option<u64>)
    ensures
        r == (match json_view(*v) {
            JsonV::Num { as_u64, .. } => as_u64,
            _ => None,
        }),
{
    v.as_u64()
}

/// Relies on serde_json::Value::as_i64: the value of an integral JSON
/// number that fits in an `i64`.
#[verifier::external_body]
fn json_as_i64(v: &serde_json::Value) -> (r: Option<i64>)
    ensures
        r == (match json_view(*v) {
            JsonV::Num { as_i64, .. } => as_i64,
            _ => None,
        }),
{
    v.as_i64()
}

/// Relies on serde_json::Value::as_bool: the value of a JSON boolean.
#[verifier::external_body]
fn json_as_bool(v: &serde_json::Value) -> (r: Option<bool>)
    ensures
        r == (match json_view(*v) {
            JsonV::Bool(b) => Some(b),
            _ => None,
        }),
{
    v.as_bool()
}

/// Relies on serde_json::Value::as_str: the content of a JSON string.
#[verifier::external_body]
fn json_as_string(v: &serde_json::Value) -> (r: Option<String>)
    ensures
        (match r {
            Some(s) => json_view(*v) == JsonV::Str(s@),
            None => !(json_view(*v) is Str),
        }),
{
    v.as_str().map(|s| s.to_owned())
}

// --- reading replies ---

/// A `u64` read from a JSON value: an integral number's value, or a
/// string normalized from its decimal or `0x`-hex encoding; `None` for
/// every other shape.
pub open spec fn spec_json_u64(j: JsonV) -> Option<u64> {
    match j {
        JsonV::Num { as_u64, .. } => as_u64,
        JsonV::Str(t) => norm_u64_of(t),
        _ => None,
    }
}

/// The field of an object under `key`: `None` when the value is no
/// object or lacks the key.
pub open spec fn spec_obj_field(j: JsonV, key: Seq<char>) -> Option<JsonV> {
    match j {
        JsonV::Obj(m) => if m.contains_key(key) {
            Some(m[key])
        } else {
            None
        },
        _ => None,
    }
}

/// The head number a notification or reply text carries: the normalized
/// `number` field of the head under `params.result` (or, without a
/// `params` field, under `result`); `None` whenever any part is absent
/// or ill-shaped.
pub open spec fn spec_head_number(doc: Option<JsonV>) -> Option<u64> {
    match doc {
        Some(j) => {
            let head = match spec_obj_field(j, "params"@) {
                Some(p) => spec_obj_field(p, "result"@),
                None => spec_obj_field(j, "result"@),
            };
            match head {
                Some(h) => match spec_obj_field(h, "number"@) {
                    Some(n) => spec_json_u64(n),
                    None => None,
                },
                None => None,
            }
        },
        None => None,
    }
}

/// The subscription identifier a reply text carries: its `result` string.
pub open spec fn spec_subscription_id(doc: Option<JsonV>) -> Option<Seq<char>> {
    match doc {
        Some(j) => match spec_obj_field(j, "result"@) {
            Some(JsonV::Str(t)) => Some(t),
            _ => None,
        },
        None => None,
    }
}

/// The integral request id a reply text carries.
pub open spec fn spec_reply_id(doc: Option<JsonV>) -> Option<i64> {
    match doc {
        Some(j) => match spec_obj_field(j, "id"@) {
            Some(JsonV::Num { as_i64, .. }) => as_i64,
            _ => None,
        },
        None => None,
    }
}

/// The peer count and syncing flag a health reply text carries, under
/// `result`; a field that is absent or ill-typed degrades to `None`,
/// never to an error.
pub open spec fn spec_health_fields(doc: Option<JsonV>) -> (Option<u64>, Option<bool>) {
    match doc {
        Some(j) => match spec_obj_field(j, "result"@) {
            Some(res) => (
                (match spec_obj_field(res, "peers"@) {
                    Some(JsonV::Num { as_u64, .. }) => as_u64,
                    _ => None,
                }),
                (match spec_obj_field(res, "isSyncing"@) {
                    Some(JsonV::Bool(b)) => Some(b),
                    _ => None,
                }),
            ),
            None => (None, None),
        },
        None => (None, None),
    }
}

/// The current and highest block a sync-state reply text carries, under
/// `result`, each normalized from either on-the-wire number encoding; a
/// field that is absent or ill-shaped degrades to `None`, never to an
/// error.
pub open spec fn spec_sync_state_fields(doc: Option<JsonV>) -> (Option<u64>, Option<u64>) {
    match doc {
        Some(j) => match spec_obj_field(j, "result"@) {
            Some(res) => (
                (match spec_obj_field(res, "currentBlock"@) {
                    Some(c) => spec_json_u64(c),
                    None => None,
                }),
                (match spec_obj_field(res, "highestBlock"@) {
                    Some(h) => spec_json_u64(h),
                    None => None,
                }),
            ),
            None => (None, None),
        },
        None => (None, None),
    }
}

/// Reads a `u64` from a JSON value that may be an integral number or a
/// string in decimal or `0x`-hex form; anything else yields `None`.
pub fn parse_u64_from_json(v: &serde_json::Value) -> (r: Option<u64>)
    ensures
        r == spec_json_u64(json_view(*v)),
{
    if let Some(n) = json_as_u64(v) {
        return Some(n);
    }
    if let Some(s) = json_as_string(v) {
        return parse_u64_norm(s.as_str());
    }
    None
}

/// The head number carried by a new-heads notification (under
/// `params.result`) or a direct reply (under `result`), normalized from
/// either on-the-wire number encoding.
pub fn head_number(txt: &str) -> (r: Option<u64>)
    ensures
        r == spec_head_number(json_doc(txt@)),
{
    let val = json_from_str(txt)?;
    let head = match json_get(&val, "params") {
        Some(p) => match json_get(p, "result") {
            Some(r) => Some(r),
            None => None,
        },
        None => json_get(&val, "result"),
    };
    match head {
        Some(h) => match json_get(h, "number") {
            Some(numv) => parse_u64_from_json(numv),
            None => None,
        },
        None => None,
    }
}

/// The subscription identifier carried by a subscription reply's
/// `result` string.
pub fn subscription_id(txt: &str) -> (r: Option<String>)
    ensures
        (match r {
            Some(s) => spec_subscription_id(json_doc(txt@)) == Some(s@),
            None => (spec_subscription_id(json_doc(txt@)) is None),
        }),
{
    let val = json_from_str(txt)?;
    match json_get(&val, "result") {
        Some(r) => json_as_string(r),
        None => None,
    }
}

/// The request id of a reply, when it carries an integral `id`.
pub fn reply_id(txt: &str) -> (r: Option<i64>)
    ensures
        r == spec_reply_id(json_doc(txt@)),
{
    let val = json_from_str(txt)?;
    match json_get(&val, "id") {
        Some(v) => json_as_i64(v),
        None => None,
    }
}

/// Peer count and syncing flag of a health reply; a malformed or missing
/// field degrades to `None`.
pub fn health_fields(txt: &str) -> (r: (Option<u64>, Option<bool>))
    ensures
        r == spec_health_fields(json_doc(txt@)),
{
    let val = match json_from_str(txt) {
        Some(v) => v,
        None => {
            return (None, None);
        },
    };
    match json_get(&val, "result") {
        Some(res) => {
            let peers = match json_get(res, "peers") {
                Some(p) => json_as_u64(p),
                None => None,
            };
            let syncing = match json_get(res, "isSyncing") {
                Some(s) => json_as_bool(s),
                None => None,
            };
            (peers, syncing)
        },
        None => (None, None),
    }
}

/// Current and highest block of a sync-state reply, each normalized from
/// either on-the-wire number encoding; a malformed or missing field
/// degrades to `None`.
pub fn sync_state_fields(txt: &str) -> (r: (Option<u64>, Option<u64>))
    ensures
        r == spec_sync_state_fields(json_doc(txt@)),
{
    let val = match json_from_str(txt) {
        Some(v) => v,
        None => {
            return (None, None);
        },
    };
    match json_get(&val, "result") {
        Some(res) => {
            let current = match json_get(res, "currentBlock") {
                Some(c) => parse_u64_from_json(c),
                None => None,
            };
            let highest = match json_get(res, "highestBlock") {
                Some(h) => parse_u64_from_json(h),
                None => None,
            };
            (current, highest)
        },
        None => (None, None),
    }
}

} // verus!
