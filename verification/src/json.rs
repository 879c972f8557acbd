//! JSON documents, built with `serde_json` and described by a mathematical
//! model of their structure.

use vstd::prelude::*;

verus! {

/// The structure of a JSON document, as far as this crate builds one.
pub enum JsonModel {
    Null,
    Text(Seq<char>),
    List(Seq<JsonModel>),
    /// The members of an object, in the order in which they are printed.
    Object(Seq<(Seq<char>, JsonModel)>),
}

#[verifier::external_type_specification]
#[verifier::external_body]
pub struct ExJsonValue(serde_json::Value);

/// The structure of a `serde_json::Value`.
pub uninterp spec fn json_model(v: serde_json::Value) -> JsonModel;

/// The compact text that `serde_json` prints for a document of the given
/// structure.
pub uninterp spec fn json_rendering(m: JsonModel) -> Seq<char>;

/// The models of a sequence of values, in order.
pub open spec fn json_models(items: Seq<serde_json::Value>) -> Seq<JsonModel> {
    items.map_values(|v: serde_json::Value| json_model(v))
}

/// The members that a list of name and value pairs describes, in order.
pub open spec fn json_members(pairs: Seq<(String, serde_json::Value)>) -> Seq<(Seq<char>, JsonModel)> {
    pairs.map_values(|p: (String, serde_json::Value)| (p.0@, json_model(p.1)))
}

/// No two pairs of the list carry the same name.
pub open spec fn distinct_names(pairs: Seq<(String, serde_json::Value)>) -> bool {
    forall|i: int, j: int|
        0 <= i < j < pairs.len() ==> (#[trigger] pairs[i]).0@ != (#[trigger] pairs[j]).0@
}

/// `serde_json::Value::Null`: the JSON `null`.
#[verifier::external_body]
pub(crate) fn json_null() -> (v: serde_json::Value)
    ensures
        json_model(v) == JsonModel::Null,
{
    serde_json::Value::Null
}

/// `serde_json::Value::String`: a JSON string that holds exactly the given
/// characters.
#[verifier::external_body]
pub(crate) fn json_text(s: &str) -> (v: serde_json::Value)
    ensures
        json_model(v) == JsonModel::Text(s@),
{
    serde_json::Value::String(s.to_owned())
}

/// `serde_json::Value::Array`: a JSON array of the given values, in the given
/// order.
#[verifier::external_body]
pub(crate) fn json_array(items: Vec<serde_json::Value>) -> (v: serde_json::Value)
    ensures
        json_model(v) == JsonModel::List(json_models(items@)),
{
    serde_json::Value::Array(items)
}

/// `serde_json::Value::Object` over the `serde_json::Map` collected from the
/// pairs. With the `preserve_order` feature, which this crate asks for, the
/// map keeps the order of insertion, so the object has one member for each
/// pair, in the order of the pairs. The names must differ from each other: a
/// repeated name would replace a value instead of adding a member.
#[verifier::external_body]
pub(crate) fn json_object(pairs: Vec<(String, serde_json::Value)>) -> (v: serde_json::Value)
    requires
        distinct_names(pairs@),
    ensures
        json_model(v) == JsonModel::Object(json_members(pairs@)),
{
    serde_json::Value::Object(pairs.into_iter().collect())
}

/// `serde_json::Value`'s `Display`, reached through `to_string`: the compact
/// text of the document, which depends on its structure alone.
#[verifier::external_body]
pub(crate) fn json_render(v: &serde_json::Value) -> (s: String)
    ensures
        s@ == json_rendering(json_model(*v)),
{
    v.to_string()
}

} // verus!
