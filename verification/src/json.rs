//! JSON values, kept as JSON texts.
//!
//! Reading and quoting are serde_json's; what the firmware does with the parts is
//! decided elsewhere.

use vstd::prelude::*;

use crate::ieee::Double;
use crate::text::{joined, signed_text, text_pairs};
use crate::text_map::{distinct_keys, pairs_map};

verus! {

/// What a JSON value is to the configuration.
#[derive(Debug)]
pub enum JsonScalar {
    /// A number: as a signed integer, if it is one, and in double precision.
    Number { integer: Option<i64>, double: Option<Double> },
    Bool(bool),
    Text(String),
    /// Null, a list, an object, or no JSON at all.
    Other,
}

pub enum ScalarView {
    Number { integer: Option<i64>, double: Option<Double> },
    Bool(bool),
    Text(Seq<char>),
    Other,
}

impl View for JsonScalar {
    type V = ScalarView;

    open spec fn view(&self) -> ScalarView {
        match self {
            JsonScalar::Number { integer, double } => ScalarView::Number {
                integer: *integer,
                double: *double,
            },
            JsonScalar::Bool(b) => ScalarView::Bool(*b),
            JsonScalar::Text(s) => ScalarView::Text(s@),
            JsonScalar::Other => ScalarView::Other,
        }
    }
}

/// What serde_json reads from a text, sorted by kind.
pub uninterp spec fn scalar_of(text: Seq<char>) -> ScalarView;

/// The JSON object that serde_json reads from a text, as its members with their
/// values in JSON, in the order of the keys.
pub uninterp spec fn members_of(text: Seq<char>) -> Option<Seq<(Seq<char>, Seq<char>)>>;

/// The JSON object that serde_json writes for members with their values in JSON.
pub uninterp spec fn object_of(members: Seq<(Seq<char>, Seq<char>)>) -> Seq<char>;

/// A text as a JSON string: quoted and escaped.
pub uninterp spec fn quoted(text: Seq<char>) -> Seq<char>;

/// How deep serde_json reads lists and objects within the object that holds them.
pub const MAX_JSON_DEPTH: u8 = 126;

/// A JSON list of these items.
pub open spec fn list_text(items: Seq<Seq<char>>) -> Seq<char> {
    "["@ + joined(items, ","@) + "]"@
}

/// A JSON object of these members.
pub open spec fn object_text(members: Seq<(Seq<char>, Seq<char>)>) -> Seq<char> {
    "{"@ + joined(
        Seq::new(members.len(), |i: int| quoted(members[i].0) + ":"@ + members[i].1),
        ","@,
    ) + "}"@
}

/// One text comes before another in the order of their characters.
pub open spec fn text_before(a: Seq<char>, b: Seq<char>) -> bool {
    exists|i: int|
        #![trigger a.take(i)]
        0 <= i <= a.len() && i < b.len() && a.take(i) == b.take(i) && (i == a.len() || a[i]
            < b[i])
}

/// The members of an object are in the order of their keys, with no key twice.
pub open spec fn keys_in_order(members: Seq<(Seq<char>, Seq<char>)>) -> bool {
    forall|i: int, j: int|
        0 <= i < j < members.len() ==> text_before(
            (#[trigger] members[i]).0,
            (#[trigger] members[j]).0,
        )
}

/// A JSON value that is written as it is read: a string, a truth value, null, or an
/// integer of at most 64 bits.
pub open spec fn plain_scalar(value: Seq<char>) -> bool {
    ||| exists|s: Seq<char>| value == #[trigger] quoted(s)
    ||| value == "true"@
    ||| value == "false"@
    ||| value == "null"@
    ||| exists|n: int| i64::MIN <= n <= u64::MAX && value == #[trigger] signed_text(n)
}

/// A JSON value that is written as it is read: a plain scalar, or a list or an object
/// of such values, nested at most so deep. The members of an object are in order.
pub open spec fn plain_json(value: Seq<char>, depth: nat) -> bool
    decreases depth,
{
    ||| plain_scalar(value)
    ||| depth > 0 && exists|items: Seq<Seq<char>>|
        value == #[trigger] list_text(items) && forall|i: int|
            0 <= i < items.len() ==> plain_json(#[trigger] items[i], (depth - 1) as nat)
    ||| depth > 0 && exists|members: Seq<(Seq<char>, Seq<char>)>|
        value == #[trigger] object_text(members) && keys_in_order(members) && forall|i: int|
            0 <= i < members.len() ==> plain_json((#[trigger] members[i]).1, (depth - 1) as nat)
}

/// Every member has a plain value.
pub open spec fn plain_members(members: Seq<(Seq<char>, Seq<char>)>) -> bool {
    forall|i: int|
        0 <= i < members.len() ==> plain_json((#[trigger] members[i]).1, MAX_JSON_DEPTH as nat)
}

/// Reading `json` gives back what the members stand for.
pub open spec fn reads_back(json: Seq<char>, members: Seq<(Seq<char>, Seq<char>)>) -> bool {
    members_of(json) is Some && pairs_map(members_of(json)->0) == pairs_map(members)
}

/// `serde_json::from_str::<Value>`, sorted by kind, with `Number::as_i64` and
/// `Number::as_f64` of a number. The result is a function of the text alone, named
/// [`scalar_of`]; what it is for a given text is not stated.
#[verifier::external_body]
pub(crate) fn json_scalar(text: &str) -> (r: JsonScalar)
    ensures
        r@ == scalar_of(text@),
{
    match serde_json::from_str::<serde_json::Value>(text) {
        Ok(serde_json::Value::Number(n)) => JsonScalar::Number {
            integer: n.as_i64(),
            double: n.as_f64().map(|x| Double { bits: x.to_bits() }),
        },
        Ok(serde_json::Value::Bool(b)) => JsonScalar::Bool(b),
        Ok(serde_json::Value::String(s)) => JsonScalar::Text(s),
        _ => JsonScalar::Other,
    }
}

/// `serde_json::from_str` for a map from texts to values, with each value back in
/// JSON. The result is a function of the text alone, named [`members_of`]. A map
/// holds no key twice, so neither does the result.
#[verifier::external_body]
pub(crate) fn json_members(text: &str) -> (r: Option<Vec<(String, String)>>)
    ensures
        r is Some ==> members_of(text@) == Some(text_pairs(r->0@)),
        r is None ==> members_of(text@) is None,
        r is Some ==> distinct_keys(text_pairs(r->0@)),
{
    serde_json::from_str::<std::collections::BTreeMap<String, serde_json::Value>>(text)
        .ok()
        .map(|m| m.into_iter().map(|(k, v)| (k, v.to_string())).collect())
}

/// `serde_json::to_string` of a map, whose values are read from JSON first. The
/// result is a function of the members alone, named [`object_of`]. Where the keys
/// are distinct and the values plain, `serde_json::from_str` reads it back: lists and
/// objects are written without spaces, an object in the order of its keys, and
/// nesting within the limit of the parser is read. What a value with a fraction reads
/// back as is not stated: parsing may round it.
#[verifier::external_body]
pub(crate) fn json_object(members: &Vec<(String, String)>) -> (r: String)
    ensures
        r@ == object_of(text_pairs(members@)),
        distinct_keys(text_pairs(members@)) && plain_members(text_pairs(members@)) ==> reads_back(
            r@,
            text_pairs(members@),
        ),
{
    let map: std::collections::BTreeMap<&str, serde_json::Value> = members
        .iter()
        .map(|(k, v)| (k.as_str(), serde_json::from_str(v).unwrap_or_default()))
        .collect();
    serde_json::to_string(&map).unwrap_or_default()
}

/// `serde_json::to_string` of a text, which cannot fail. The result is a function
/// of the text alone, named [`quoted`].
#[verifier::external_body]
pub(crate) fn json_quote(text: &str) -> (r: String)
    ensures
        r@ == quoted(text@),
{
    serde_json::to_string(text).unwrap_or_default()
}

} // verus!
