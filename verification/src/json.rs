//! The JSON document model behind the decoder, and the crate's only
//! window onto `serde_json`. Parsing is the one trusted step: its result
//! is carried over into the library's own document type, and what it
//! returns for a given text is fixed by the named function `parse_of`,
//! which depends on the text alone. Everything that reads a parsed
//! document afterwards is verified logic over this model.

use vstd::prelude::*;

verus! {

broadcast use vstd::std_specs::vec::group_vec_axioms;

/// A parsed JSON document. Numbers are carried as their rendered text,
/// which is all the protocol ever does with them beyond ids.
#[derive(Debug, PartialEq, Eq)]
pub enum Json {
    Null,
    Bool(bool),
    Num(String),
    Str(String),
    Arr(Vec<Json>),
    Obj(Vec<(String, Json)>),
}

/// The mathematical shape of a document: every string a character
/// sequence.
pub enum JsonV {
    Null,
    Bool(bool),
    Num(Seq<char>),
    Str(Seq<char>),
    Arr(Seq<JsonV>),
    Obj(Seq<(Seq<char>, JsonV)>),
}

/// The shape of a document value.
pub open spec fn jv(j: Json) -> JsonV
    decreases j,
{
    match j {
        Json::Null => JsonV::Null,
        Json::Bool(b) => JsonV::Bool(b),
        Json::Num(t) => JsonV::Num(t@),
        Json::Str(s) => JsonV::Str(s@),
        Json::Arr(v) => JsonV::Arr(jv_list(v@)),
        Json::Obj(v) => JsonV::Obj(jv_fields(v@)),
    }
}

/// The shapes of an array's elements, in order.
pub open spec fn jv_list(v: Seq<Json>) -> Seq<JsonV>
    decreases v,
{
    if v.len() == 0 {
        Seq::empty()
    } else {
        jv_list(v.drop_last()).push(jv(v.last()))
    }
}

/// The shapes of an object's fields, in order.
pub open spec fn jv_fields(v: Seq<(String, Json)>) -> Seq<(Seq<char>, JsonV)>
    decreases v,
{
    if v.len() == 0 {
        Seq::empty()
    } else {
        jv_fields(v.drop_last()).push((v.last().0@, jv(v.last().1)))
    }
}

/// `jv_list` maps the sequence elementwise.
pub proof fn lemma_jv_list_index(v: Seq<Json>)
    ensures
        jv_list(v).len() == v.len(),
        forall|i: int| 0 <= i < v.len() ==> jv_list(v)[i] == jv(v[i]),
    decreases v.len(),
{
    if v.len() > 0 {
        lemma_jv_list_index(v.drop_last());
        assert forall|i: int| 0 <= i < v.len() implies jv_list(v)[i] == jv(v[i]) by {
            if i < v.len() - 1 {
                assert(v.drop_last()[i] == v[i]);
            }
        }
    }
}

/// `jv_fields` maps the sequence elementwise.
pub proof fn lemma_jv_fields_index(v: Seq<(String, Json)>)
    ensures
        jv_fields(v).len() == v.len(),
        forall|i: int|
            0 <= i < v.len() ==> jv_fields(v)[i] == (v[i].0@, jv(v[i].1)),
    decreases v.len(),
{
    if v.len() > 0 {
        lemma_jv_fields_index(v.drop_last());
        assert forall|i: int|
            0 <= i < v.len() implies jv_fields(v)[i] == (v[i].0@, jv(v[i].1)) by {
            if i < v.len() - 1 {
                assert(v.drop_last()[i] == v[i]);
            }
        }
    }
}

/// What parsing a given text yields: a document shape, or nothing for
/// malformed text. The result depends on the text alone.
pub uninterp spec fn parse_of(s: Seq<char>) -> Option<JsonV>;

/// Relies on `serde_json::from_str`: parses JSON text, or fails on
/// malformed text; the outcome is a function of the text alone, which is
/// what the named `parse_of` records.
#[verifier::external_body]
pub fn parse_json(s: &str) -> (r: Option<Json>)
    ensures
        (r is Some) == (parse_of(s@) is Some),
        r matches Some(j) ==> parse_of(s@) == Some(jv(j)),
{
    serde_json::from_str::<serde_json::Value>(s).ok().map(to_model)
}

#[verifier::external_type_specification]
#[verifier::external_body]
pub struct ExValue(serde_json::Value);

/// Relies on the shape of `serde_json::Value`: each node is carried over
/// variant for variant, fields moved; a number becomes its rendered
/// text. Nothing is dropped or reordered beyond the object-key order the
/// parser itself fixed.
#[verifier::external_body]
fn to_model(v: serde_json::Value) -> Json {
    match v {
        serde_json::Value::Null => Json::Null,
        serde_json::Value::Bool(b) => Json::Bool(b),
        serde_json::Value::Number(n) => Json::Num(n.to_string()),
        serde_json::Value::String(s) => Json::Str(s),
        serde_json::Value::Array(a) => Json::Arr(a.into_iter().map(to_model).collect()),
        serde_json::Value::Object(o) => Json::Obj(
            o.into_iter().map(|(k, x)| (k, to_model(x))).collect(),
        ),
    }
}

} // verus!
