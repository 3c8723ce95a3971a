//! Decoding of service response bodies, and encoding of the refresh request
//! payload, through `serde_json`.
//!
//! One trusted wrapper parses a body with `serde_json` and converts the
//! parsed document, variant by variant, into the library's own [`JsonNode`]
//! tree; its result carries the name [`json_doc_of`], a function of the
//! body's characters alone. Everything after the parse — which keys are
//! read, the bound on the service status, the walk over the records, the
//! exactly-one-string rule for the refresh body — is verified code with
//! exact contracts over spec functions of that name.

use vstd::prelude::*;
use crate::response::{record_views, zero_response, DataItem, DataItemView, Response, ResponseView,
    StatusInfo};
use crate::text::str_eq;

verus! {

/// Declares `serde_json::Value`, the parsed form of a JSON document, so the
/// trusted converter below can take it; it stays opaque here.
#[verifier::external_type_specification]
#[verifier::external_body]
pub struct ExValue(serde_json::Value);

/// A JSON document as the library holds it: the parsed tree, with numbers
/// kept only as far as the protocol reads them (non-negative integers).
#[derive(Debug)]
pub enum JsonNode {
    Null,
    Bool(bool),
    /// A number that is a non-negative integer within `u64`.
    UInt(u64),
    /// Any other number: negative, fractional, or out of range.
    OtherNumber,
    Text(String),
    Items(Vec<JsonNode>),
    Entries(Vec<(String, JsonNode)>),
}

/// What a body parses to: the [`JsonNode`] tree of the document, `None`
/// where the body is not valid JSON. A function of the characters alone.
pub uninterp spec fn json_doc_of(s: Seq<char>) -> Option<JsonNode>;

/// Relies on `serde_json::from_str`: parses the body as a JSON document,
/// `None` when it is not valid JSON, and converts the result through
/// [`node_of_value`].
#[verifier::external_body]
fn parse_json_doc(s: &str) -> (r: Option<JsonNode>)
    ensures
        r == json_doc_of(s@),
{
    match serde_json::from_str::<serde_json::Value>(s) {
        Ok(v) => Some(node_of_value(v)),
        Err(_) => None,
    }
}

/// The converter half of [`parse_json_doc`]: each `serde_json::Value`
/// variant becomes the matching [`JsonNode`] variant, fields moved over,
/// numbers through `serde_json::Number::as_u64`.
#[verifier::external_body]
fn node_of_value(v: serde_json::Value) -> (r: JsonNode) {
    match v {
        serde_json::Value::Null => JsonNode::Null,
        serde_json::Value::Bool(b) => JsonNode::Bool(b),
        serde_json::Value::Number(n) => match n.as_u64() {
            Some(u) => JsonNode::UInt(u),
            None => JsonNode::OtherNumber,
        },
        serde_json::Value::String(s) => JsonNode::Text(s),
        serde_json::Value::Array(a) => JsonNode::Items(
            a.into_iter().map(node_of_value).collect(),
        ),
        serde_json::Value::Object(m) => JsonNode::Entries(
            m.into_iter().map(|e| (e.0, node_of_value(e.1))).collect(),
        ),
    }
}

/// The quoted, escaped JSON form of a string, as `serde_json` serialises it.
pub uninterp spec fn json_quoted(s: Seq<char>) -> Seq<char>;

/// Relies on `serde_json::to_string` on a string value: the quoted, escaped
/// JSON form, a function of the characters alone. Serialising a plain string
/// cannot fail.
#[verifier::external_body]
pub fn json_quote(s: &str) -> (r: String)
    ensures
        r@ == json_quoted(s@),
{
    serde_json::to_string(&serde_json::Value::String(s.to_string())).unwrap_or_default()
}

/// The value under a key among a JSON object's entries: the first entry
/// whose key matches, `None` where none does. Keys parsed from a JSON
/// object are unique, so the first match is the only one.
pub open spec fn entry_lookup(entries: Seq<(String, JsonNode)>, key: Seq<char>) -> Option<JsonNode>
    decreases entries.len(),
{
    if entries.len() == 0 {
        Option::None
    } else if entries[0].0@ == key {
        Option::Some(entries[0].1)
    } else {
        entry_lookup(entries.drop_first(), key)
    }
}

/// Finds the value under a key, exactly as [`entry_lookup`] states.
fn entry_get<'a>(entries: &'a Vec<(String, JsonNode)>, key: &str) -> (r: Option<&'a JsonNode>)
    ensures
        match entry_lookup(entries@, key@) {
            Option::Some(n) => r matches Some(m) && *m == n,
            Option::None => r is None,
        },
{
    let mut i: usize = 0;
    proof {
        assert(entries@.skip(0) =~= entries@);
    }
    while i < entries.len()
        invariant
            i <= entries.len(),
            entry_lookup(entries@, key@) == entry_lookup(entries@.skip(i as int), key@),
        decreases entries.len() - i,
    {
        proof {
            assert(entries@.skip(i as int)[0] == entries@[i as int]);
        }
        if str_eq(entries[i].0.as_str(), key) {
            return Some(&entries[i].1);
        }
        proof {
            assert(entries@.skip(i as int).drop_first() =~= entries@.skip(i as int + 1));
        }
        i = i + 1;
    }
    proof {
        assert(entries@.skip(entries@.len() as int) =~= Seq::<(String, JsonNode)>::empty());
    }
    None
}

/// The approval record a node stands for: the node must be an object with a
/// `status` string and an `is_approved` boolean.
pub open spec fn record_of_node(n: JsonNode) -> Option<DataItemView> {
    match n {
        JsonNode::Entries(entries) => match (
            entry_lookup(entries@, "status"@),
            entry_lookup(entries@, "is_approved"@),
        ) {
            (Option::Some(JsonNode::Text(s)), Option::Some(JsonNode::Bool(b))) => Option::Some(
                DataItemView { status: s@, is_approved: b },
            ),
            _ => Option::None,
        },
        _ => Option::None,
    }
}

/// The record sequence a `data` array stands for: every element must be a
/// record, else the whole array is rejected.
pub open spec fn records_of_items(items: Seq<JsonNode>) -> Option<Seq<DataItemView>>
    decreases items.len(),
{
    if items.len() == 0 {
        Option::Some(Seq::empty())
    } else {
        match (records_of_items(items.drop_last()), record_of_node(items.last())) {
            (Option::Some(rest), Option::Some(r)) => Option::Some(rest.push(r)),
            _ => Option::None,
        }
    }
}

/// The response a parsed document stands for: an object with a
/// `status_info` object whose `status_code` is an integer within `u16`, and
/// a `data` array of records; `None` for any deviation.
pub open spec fn response_of_doc(doc: JsonNode) -> Option<ResponseView> {
    match doc {
        JsonNode::Entries(entries) => match entry_lookup(entries@, "status_info"@) {
            Option::Some(JsonNode::Entries(si)) => match entry_lookup(si@, "status_code"@) {
                Option::Some(JsonNode::UInt(u)) => if u <= 65535 {
                    match entry_lookup(entries@, "data"@) {
                        Option::Some(JsonNode::Items(items)) => match records_of_items(items@) {
                            Option::Some(rs) => Option::Some(
                                ResponseView { status_code: u as u16, data: rs },
                            ),
                            Option::None => Option::None,
                        },
                        _ => Option::None,
                    }
                } else {
                    Option::None
                },
                _ => Option::None,
            },
            _ => Option::None,
        },
        _ => Option::None,
    }
}

/// What a response body decodes to: the response its parsed document stands
/// for, with any body that is not valid JSON or deviates from the expected
/// shape folded into the zero-valued response.
pub open spec fn decoded_response_of(s: Seq<char>) -> ResponseView {
    match json_doc_of(s) {
        Option::Some(doc) => match response_of_doc(doc) {
            Option::Some(r) => r,
            Option::None => zero_response(),
        },
        Option::None => zero_response(),
    }
}

/// The new token inside a refresh endpoint's 200 body: the body must be an
/// object whose `data` field is an array of exactly one string; `None` for
/// any deviation.
pub open spec fn refresh_token_of(s: Seq<char>) -> Option<Seq<char>> {
    match json_doc_of(s) {
        Option::Some(JsonNode::Entries(entries)) => match entry_lookup(entries@, "data"@) {
            Option::Some(JsonNode::Items(items)) => if items@.len() == 1 {
                match items@[0] {
                    JsonNode::Text(t) => Option::Some(t@),
                    _ => Option::None,
                }
            } else {
                Option::None
            },
            _ => Option::None,
        },
        _ => Option::None,
    }
}

/// Decodes one record, exactly as [`record_of_node`] states.
fn decode_record(n: &JsonNode) -> (r: Option<DataItem>)
    ensures
        match record_of_node(*n) {
            Option::Some(dv) => r matches Some(d) && d@ == dv,
            Option::None => r is None,
        },
{
    let entries = match n {
        JsonNode::Entries(e) => e,
        _ => {
            return None;
        },
    };
    let status_node = match entry_get(entries, "status") {
        Some(x) => x,
        None => {
            return None;
        },
    };
    let status = match status_node {
        JsonNode::Text(s) => s,
        _ => {
            return None;
        },
    };
    let approved_node = match entry_get(entries, "is_approved") {
        Some(x) => x,
        None => {
            return None;
        },
    };
    let is_approved = match approved_node {
        JsonNode::Bool(b) => *b,
        _ => {
            return None;
        },
    };
    Some(DataItem { status: status.as_str().to_owned(), is_approved })
}

proof fn lemma_records_failure(items: Seq<JsonNode>, i: int)
    requires
        0 <= i < items.len(),
        record_of_node(items[i]) is None,
    ensures
        records_of_items(items) is None,
    decreases items.len(),
{
    if i == items.len() - 1 {
    } else {
        assert(items.drop_last()[i] == items[i]);
        lemma_records_failure(items.drop_last(), i);
    }
}

/// Decodes a `data` array, exactly as [`records_of_items`] states.
fn decode_records(items: &Vec<JsonNode>) -> (r: Option<Vec<DataItem>>)
    ensures
        match records_of_items(items@) {
            Option::Some(rs) => r matches Some(v) && record_views(v@) == rs,
            Option::None => r is None,
        },
{
    let mut out: Vec<DataItem> = Vec::new();
    proof {
        assert(items@.take(0) =~= Seq::<JsonNode>::empty());
        assert(record_views(out@) =~= Seq::<DataItemView>::empty());
    }
    let mut i: usize = 0;
    while i < items.len()
        invariant
            i <= items.len(),
            records_of_items(items@.take(i as int)) == Option::Some(record_views(out@)),
        decreases items.len() - i,
    {
        let d = match decode_record(&items[i]) {
            Some(d) => d,
            None => {
                proof {
                    lemma_records_failure(items@, i as int);
                }
                return None;
            },
        };
        let ghost prev = out@;
        out.push(d);
        proof {
            assert(items@.take(i as int + 1).drop_last() =~= items@.take(i as int));
            assert(items@.take(i as int + 1).last() == items@[i as int]);
            assert(record_views(out@) =~= record_views(prev).push(d@));
        }
        i = i + 1;
    }
    proof {
        assert(items@.take(items@.len() as int) =~= items@);
    }
    Some(out)
}

/// Decodes a parsed document, exactly as [`response_of_doc`] states.
fn decode_doc(doc: &JsonNode) -> (r: Option<Response>)
    ensures
        match response_of_doc(*doc) {
            Option::Some(rv) => r matches Some(resp) && resp@ == rv,
            Option::None => r is None,
        },
{
    let entries = match doc {
        JsonNode::Entries(e) => e,
        _ => {
            return None;
        },
    };
    let status_info = match entry_get(entries, "status_info") {
        Some(n) => n,
        None => {
            return None;
        },
    };
    let si_entries = match status_info {
        JsonNode::Entries(e) => e,
        _ => {
            return None;
        },
    };
    let code_node = match entry_get(si_entries, "status_code") {
        Some(n) => n,
        None => {
            return None;
        },
    };
    let code_wide = match code_node {
        JsonNode::UInt(u) => *u,
        _ => {
            return None;
        },
    };
    if code_wide > 65535 {
        return None;
    }
    let status_code: u16 = code_wide as u16;
    let data_node = match entry_get(entries, "data") {
        Some(n) => n,
        None => {
            return None;
        },
    };
    let items = match data_node {
        JsonNode::Items(v) => v,
        _ => {
            return None;
        },
    };
    let records = match decode_records(items) {
        Some(v) => v,
        None => {
            return None;
        },
    };
    Some(Response { status_info: StatusInfo { status_code }, data: records })
}

/// Decodes a response body, exactly as [`decoded_response_of`] states:
/// every parse or shape failure folds into the zero-valued response, so a
/// malformed body classifies as pending.
pub fn decode_body(body: &str) -> (r: Response)
    ensures
        r@ == decoded_response_of(body@),
{
    let doc = match parse_json_doc(body) {
        Some(d) => d,
        None => {
            return Response::zero();
        },
    };
    match decode_doc(&doc) {
        Some(resp) => resp,
        None => Response::zero(),
    }
}

/// Decodes the refresh endpoint's 200 body, exactly as [`refresh_token_of`]
/// states: the new token where the body holds exactly one string under
/// `data`, `None` for any deviation.
pub fn parse_refresh_token(body: &str) -> (r: Option<String>)
    ensures
        match refresh_token_of(body@) {
            Option::Some(t) => r matches Some(token) && token@ == t,
            Option::None => r is None,
        },
{
    let doc = match parse_json_doc(body) {
        Some(d) => d,
        None => {
            return None;
        },
    };
    let entries = match &doc {
        JsonNode::Entries(e) => e,
        _ => {
            return None;
        },
    };
    let data_node = match entry_get(entries, "data") {
        Some(n) => n,
        None => {
            return None;
        },
    };
    let items = match data_node {
        JsonNode::Items(v) => v,
        _ => {
            return None;
        },
    };
    if items.len() != 1 {
        return None;
    }
    match &items[0] {
        JsonNode::Text(t) => Some(t.as_str().to_owned()),
        _ => None,
    }
}

} // verus!
