//! Response decoding: JSON bodies as plain values, and the envelope rule
//! that tries the operation's success shape first and the service's
//! failure shape second.
//!
//! The JSON text itself is parsed by `serde_json`; what the parser hands
//! back is converted once into [`JsonNode`], a tree of plain values, and
//! every schema decision after that point is verified code over that
//! tree.

use crate::error::{TwilioErr, TwilioResult};
use crate::support::str_eq;
use crate::TwilioJson;
use vstd::prelude::*;
use vstd::string::StrSliceExecFns;

verus! {

/// A JSON document as plain values: null, booleans, integral numbers,
/// strings, arrays and objects. A number outside the signed 64-bit range
/// (or with a fractional part) is kept only as [`JsonNode::OtherNum`]:
/// no field of the schemas here may hold one, so typed extraction fails
/// on it.
#[derive(Debug)]
pub enum JsonNode {
    Null,
    Bool(bool),
    Int(i64),
    OtherNum,
    Str(String),
    Arr(Vec<JsonNode>),
    Obj(Vec<(String, JsonNode)>),
}

/// The value under the first field named `k`, if any.
pub open spec fn obj_lookup(fields: Seq<(String, JsonNode)>, k: Seq<char>) -> Option<JsonNode>
    decreases fields.len(),
{
    if fields.len() == 0 {
        None
    } else if fields[0].0@ == k {
        Some(fields[0].1)
    } else {
        obj_lookup(fields.drop_first(), k)
    }
}

impl JsonNode {
    /// The value of field `k`: only objects have fields.
    pub open spec fn spec_get(self, k: Seq<char>) -> Option<JsonNode> {
        match self {
            JsonNode::Obj(fields) => obj_lookup(fields@, k),
            _ => None,
        }
    }

    /// The characters of field `k` when it holds a string.
    pub open spec fn spec_get_str(self, k: Seq<char>) -> Option<Seq<char>> {
        match self.spec_get(k) {
            Some(JsonNode::Str(s)) => Some(s@),
            _ => None,
        }
    }

    /// The value of field `k` when it holds an integral number.
    pub open spec fn spec_get_int(self, k: Seq<char>) -> Option<i64> {
        match self.spec_get(k) {
            Some(JsonNode::Int(i)) => Some(i),
            _ => None,
        }
    }

    /// An optional string field: an absent field and a null field both
    /// read as nothing-there; a string reads as its characters; any
    /// other value is a schema violation.
    pub open spec fn spec_get_opt_str(self, k: Seq<char>) -> Option<Option<Seq<char>>> {
        match self.spec_get(k) {
            None => Some(None),
            Some(JsonNode::Null) => Some(None),
            Some(JsonNode::Str(s)) => Some(Some(s@)),
            Some(_) => None,
        }
    }

    /// The elements of field `k` when it holds an array.
    pub open spec fn spec_get_arr(self, k: Seq<char>) -> Option<Seq<JsonNode>> {
        match self.spec_get(k) {
            Some(JsonNode::Arr(items)) => Some(items@),
            _ => None,
        }
    }

    /// An optional integral number field: an absent field and a null
    /// field both read as nothing-there; an integral number reads as its
    /// value; any other value is a schema violation.
    pub open spec fn spec_get_opt_int(self, k: Seq<char>) -> Option<Option<i64>> {
        match self.spec_get(k) {
            None => Some(None),
            Some(JsonNode::Null) => Some(None),
            Some(JsonNode::Int(i)) => Some(Some(i)),
            Some(_) => None,
        }
    }

    /// Finds field `k`, exactly as [`JsonNode::spec_get`] describes.
    pub fn get<'a>(&'a self, k: &str) -> (r: Option<&'a JsonNode>)
        ensures
            match r {
                Some(n) => self.spec_get(k@) == Some(*n),
                None => self.spec_get(k@) is None,
            },
    {
        match self {
            JsonNode::Obj(fields) => {
                let n = fields.len();
                proof {
                    assert(fields@.skip(0) =~= fields@);
                }
                let mut i: usize = 0;
                while i < n
                    invariant
                        i <= n,
                        n == fields@.len(),
                        *self == JsonNode::Obj(*fields),
                        obj_lookup(fields@, k@) == obj_lookup(fields@.skip(i as int), k@),
                    decreases n - i,
                {
                    let pair = &fields[i];
                    proof {
                        assert(fields@.skip(i as int)[0] == fields@[i as int]);
                        assert(fields@.skip(i as int).drop_first() =~= fields@.skip(i + 1));
                    }
                    if str_eq(pair.0.as_str(), k) {
                        proof {
                            assert(obj_lookup(fields@.skip(i as int), k@) == Some(
                                fields@[i as int].1,
                            ));
                        }
                        return Some(&pair.1);
                    }
                    i = i + 1;
                }
                proof {
                    assert(fields@.skip(n as int) =~= Seq::<(String, JsonNode)>::empty());
                }
                None
            },
            _ => None,
        }
    }

    /// Reads string field `k`, exactly as [`JsonNode::spec_get_str`]
    /// describes.
    pub fn get_str(&self, k: &str) -> (r: Option<String>)
        ensures
            match r {
                Some(s) => self.spec_get_str(k@) == Some(s@),
                None => self.spec_get_str(k@) is None,
            },
    {
        match self.get(k) {
            Some(JsonNode::Str(s)) => Some(s.clone()),
            _ => None,
        }
    }

    /// Reads integral number field `k`, exactly as
    /// [`JsonNode::spec_get_int`] describes.
    pub fn get_int(&self, k: &str) -> (r: Option<i64>)
        ensures
            r == self.spec_get_int(k@),
    {
        match self.get(k) {
            Some(JsonNode::Int(i)) => Some(*i),
            _ => None,
        }
    }

    /// Reads array field `k`, exactly as [`JsonNode::spec_get_arr`]
    /// describes.
    pub fn get_arr<'a>(&'a self, k: &str) -> (r: Option<&'a Vec<JsonNode>>)
        ensures
            match r {
                Some(items) => self.spec_get_arr(k@) == Some(items@),
                None => self.spec_get_arr(k@) is None,
            },
    {
        match self.get(k) {
            Some(JsonNode::Arr(items)) => Some(items),
            _ => None,
        }
    }

    /// Reads optional integral number field `k`, exactly as
    /// [`JsonNode::spec_get_opt_int`] describes.
    pub fn get_opt_int(&self, k: &str) -> (r: Option<Option<i64>>)
        ensures
            r == self.spec_get_opt_int(k@),
    {
        match self.get(k) {
            None => Some(None),
            Some(JsonNode::Null) => Some(None),
            Some(JsonNode::Int(i)) => Some(Some(*i)),
            Some(_) => None,
        }
    }

    /// Reads optional string field `k`, exactly as
    /// [`JsonNode::spec_get_opt_str`] describes.
    pub fn get_opt_str(&self, k: &str) -> (r: Option<Option<String>>)
        ensures
            match r {
                Some(Some(s)) => self.spec_get_opt_str(k@) == Some(Some(s@)),
                Some(None) => self.spec_get_opt_str(k@) == Some(None::<Seq<char>>),
                None => self.spec_get_opt_str(k@) is None,
            },
    {
        match self.get(k) {
            None => Some(None),
            Some(JsonNode::Null) => Some(None),
            Some(JsonNode::Str(s)) => Some(Some(s.clone())),
            Some(_) => None,
        }
    }
}

/// The characters of an optional string, when one is there.
pub open spec fn opt_str_view(o: Option<String>) -> Option<Seq<char>> {
    match o {
        Some(s) => Some(s@),
        None => None,
    }
}

/// The JSON value type of `serde_json`, held only between parsing and
/// conversion to [`JsonNode`].
#[verifier::external_type_specification]
#[verifier::external_body]
pub struct ExValue(serde_json::Value);

/// The plain-value rendering of a parsed document: what
/// [`value_to_node`] makes of a `serde_json::Value`, a function of the
/// value alone.
pub uninterp spec fn node_of(v: serde_json::Value) -> JsonNode;

/// What a body string parses to: the plain-value rendering of the
/// document when the string is JSON, nothing when it is not. Parsing is
/// a function of the string alone, in every process.
pub uninterp spec fn json_doc_of(s: Seq<char>) -> Option<JsonNode>;

/// Relies on `serde_json::from_str::<serde_json::Value>`: parses a JSON
/// document, deterministically, or fails on text that is not JSON. Which
/// strings parse is the parser's own grammar; the outcome is named by
/// [`json_doc_of`].
#[verifier::external_body]
fn parse_value(s: &str) -> (r: Result<serde_json::Value, serde_json::Error>)
    ensures
        r matches Ok(v) ==> json_doc_of(s@) == Some(node_of(v)),
        r matches Err(_) ==> json_doc_of(s@) is None,
{
    serde_json::from_str::<serde_json::Value>(s)
}

/// Relies on the `serde_json::Value` variant accessors: converts the
/// parsed document, variant for variant, into the plain values that
/// [`node_of`] names.
#[verifier::external_body]
fn value_to_node(v: &serde_json::Value) -> (r: JsonNode)
    ensures
        r == node_of(*v),
{
    match v {
        serde_json::Value::Null => JsonNode::Null,
        serde_json::Value::Bool(b) => JsonNode::Bool(*b),
        serde_json::Value::Number(n) => match n.as_i64() {
            Some(i) => JsonNode::Int(i),
            None => JsonNode::OtherNum,
        },
        serde_json::Value::String(s) => JsonNode::Str(s.clone()),
        serde_json::Value::Array(items) => JsonNode::Arr(
            items.iter().map(value_to_node).collect(),
        ),
        serde_json::Value::Object(fields) => JsonNode::Obj(
            fields.iter().map(|(k, x)| (k.clone(), value_to_node(x))).collect(),
        ),
    }
}

/// Relies on `serde::de::Error::custom`: builds the decode error carried
/// when a body matches neither the success nor the failure shape.
#[verifier::external_body]
fn shape_error() -> serde_json::Error {
    serde::de::Error::custom("data did not match any variant of untagged enum TwilioJson")
}

/// Parses a JSON body into plain values: exactly the document
/// [`json_doc_of`] names when the body is JSON, and the body-decode
/// error when it is not.
pub fn decode_json(s: &str) -> (r: TwilioResult<JsonNode>)
    ensures
        json_doc_of(s@) matches Some(n) ==> (r matches Ok(m) && m == n),
        json_doc_of(s@) is None ==> (r matches Err(e) && e matches TwilioErr::SerdeErr(_)),
{
    match parse_value(s) {
        Ok(v) => Ok(value_to_node(&v)),
        Err(e) => Err(TwilioErr::SerdeErr(e)),
    }
}

/// A typed response shape: which documents satisfy it, and which decoded
/// value a document gives.
pub trait FromJson: Sized {
    /// Whether the document satisfies this shape.
    spec fn json_ok(n: JsonNode) -> bool;

    /// Whether `v` is the value this shape decodes out of `n`.
    spec fn json_matches(n: JsonNode, v: Self) -> bool;

    /// Decodes the document, exactly when it satisfies the shape.
    fn from_json(n: &JsonNode) -> (r: Option<Self>)
        ensures
            r matches Some(v) ==> Self::json_ok(*n) && Self::json_matches(*n, v),
            r is None ==> !Self::json_ok(*n),
    ;
}

/// Whether every element of an array satisfies shape `T`.
pub open spec fn all_json_ok<T: FromJson>(items: Seq<JsonNode>) -> bool {
    forall|i: int| 0 <= i < items.len() ==> T::json_ok(#[trigger] items[i])
}

/// Whether `vs` decodes `items` element for element under shape `T`.
pub open spec fn all_json_match<T: FromJson>(items: Seq<JsonNode>, vs: Seq<T>) -> bool {
    vs.len() == items.len() && forall|i: int|
        0 <= i < items.len() ==> T::json_matches(#[trigger] items[i], vs[i])
}

/// Decodes every element of an array, exactly when each satisfies the
/// shape.
pub fn decode_vec<T: FromJson>(items: &Vec<JsonNode>) -> (r: Option<Vec<T>>)
    ensures
        r matches Some(vs) ==> all_json_ok::<T>(items@) && all_json_match(items@, vs@),
        r is None ==> !all_json_ok::<T>(items@),
{
    let n = items.len();
    let mut out: Vec<T> = Vec::new();
    let mut i: usize = 0;
    while i < n
        invariant
            i <= n,
            n == items@.len(),
            out@.len() == i,
            forall|j: int|
                0 <= j < i ==> T::json_ok(#[trigger] items@[j]) && T::json_matches(
                    items@[j],
                    out@[j],
                ),
        decreases n - i,
    {
        match T::from_json(&items[i]) {
            Some(v) => {
                out.push(v);
            },
            None => {
                return None;
            },
        }
        i = i + 1;
    }
    Some(out)
}

/// Whether the document is the service's failure envelope: a numeric
/// non-negative `code` and `status` and a string `message`.
pub open spec fn fail_ok(n: JsonNode) -> bool {
    &&& n.spec_get_int("code"@) matches Some(c) && 0 <= c <= usize::MAX
    &&& n.spec_get_str("message"@) is Some
    &&& n.spec_get_int("status"@) matches Some(s) && 0 <= s <= usize::MAX
}

/// Decodes a parsed document into the envelope: the success shape is
/// tried first, the failure shape second, and a document matching
/// neither decodes to nothing.
pub fn decode_envelope_node<T: FromJson>(n: &JsonNode) -> (r: Option<TwilioJson<T>>)
    ensures
        T::json_ok(*n) ==> (r matches Some(j) && (j matches TwilioJson::Success(v)
            && T::json_matches(*n, v))),
        !T::json_ok(*n) && fail_ok(*n) ==> (r matches Some(j) && (j matches TwilioJson::Fail {
            code,
            message,
            status,
        } && Some(code as i64) == n.spec_get_int("code"@) && Some(message@) == n.spec_get_str(
            "message"@,
        ) && Some(status as i64) == n.spec_get_int("status"@))),
        !T::json_ok(*n) && !fail_ok(*n) ==> r is None,
{
    if let Some(v) = T::from_json(n) {
        return Some(TwilioJson::Success(v));
    }
    let code = n.get_int("code");
    let message = n.get_str("message");
    let status = n.get_int("status");
    if let (Some(code), Some(message), Some(status)) = (code, message, status) {
        if let (Ok(code), Ok(status)) = (usize::try_from(code), usize::try_from(status)) {
            return Some(TwilioJson::Fail { code, message, status });
        }
    }
    None
}

/// Decodes a whole response body for an operation expecting shape `T`:
/// an empty body reads as no content; a body that is not JSON fails with
/// the body-decode error, as does a document matching neither the
/// success nor the failure shape; a document matching a shape decodes to
/// the exact envelope [`decode_envelope_node`] describes.
pub fn decode_body<T: FromJson>(body: &str) -> (r: TwilioResult<Option<TwilioJson<T>>>)
    ensures
        body@.len() == 0 ==> (r matches Ok(o) && o is None),
        body@.len() > 0 && json_doc_of(body@) is None ==> (r matches Err(e)
            && e matches TwilioErr::SerdeErr(_)),
        body@.len() > 0 ==> (json_doc_of(body@) matches Some(n) ==> (T::json_ok(n) ==> (
        r matches Ok(o) && (o matches Some(j) && (j matches TwilioJson::Success(v)
            && T::json_matches(n, v)))))),
        body@.len() > 0 ==> (json_doc_of(body@) matches Some(n) ==> ((!T::json_ok(n) && fail_ok(
            n,
        )) ==> (r matches Ok(o) && (o matches Some(j) && (j matches TwilioJson::Fail {
            code,
            message,
            status,
        } && Some(code as i64) == n.spec_get_int("code"@) && Some(message@) == n.spec_get_str(
            "message"@,
        ) && Some(status as i64) == n.spec_get_int("status"@)))))),
        body@.len() > 0 ==> (json_doc_of(body@) matches Some(n) ==> ((!T::json_ok(n) && !fail_ok(
            n,
        )) ==> (r matches Err(e) && e matches TwilioErr::SerdeErr(_)))),
{
    if body.unicode_len() == 0 {
        return Ok(None);
    }
    let node = decode_json(body)?;
    match decode_envelope_node::<T>(&node) {
        Some(j) => Ok(Some(j)),
        None => Err(TwilioErr::SerdeErr(shape_error())),
    }
}

} // verus!
