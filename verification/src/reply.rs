//! The reply to a query: the records of its result sets as one JSON document.

use vstd::prelude::*;
use crate::errors::SessionError;
use crate::json::{json_array, json_members, json_model, json_models, json_object, json_render, json_rendering, JsonModel};
use crate::normalize::{convertible, distinct_columns, law_record_of_distinct_columns, normalize, normalized, records_view, row_convertible, row_record, sets_view, Field};
use crate::cell::normal_text;
use crate::record::{record_document, Entries, Record};

verus! {

/// The JSON array of the records of one result set, in order.
pub open spec fn set_document(records: Seq<Entries>) -> JsonModel {
    JsonModel::List(records.map_values(|entries: Entries| record_document(entries)))
}

/// The JSON array of the result sets, in order.
pub open spec fn sets_document(sets: Seq<Seq<Entries>>) -> JsonModel {
    JsonModel::List(sets.map_values(|records: Seq<Entries>| set_document(records)))
}

/// The reply document: an object whose one member, `recordsets`, is the array
/// of the result sets.
pub open spec fn recordsets_document(sets: Seq<Seq<Entries>>) -> JsonModel {
    JsonModel::Object(seq![("recordsets"@, sets_document(sets))])
}

/// What a query returns to its caller, from what the transport returned for
/// it. A failure of the transport is passed on with its text; a result with a
/// cell that has no text is a failure as a whole; any other result is the text
/// of its reply document.
pub open spec fn query_reply(outcome: Result<Vec<Vec<Vec<Field>>>, String>) -> Result<
    Seq<char>,
    SessionError,
> {
    match outcome {
        Err(message) => Err(SessionError::QueryError(message)),
        Ok(sets) => if convertible(sets@) {
            Ok(json_rendering(recordsets_document(normalized(sets@))))
        } else {
            Err(SessionError::NormalizationError)
        },
    }
}

/// The JSON array of the records of one result set.
pub fn set_to_json(records: &Vec<Record>) -> (document: serde_json::Value)
    ensures
        json_model(document) == set_document(records_view(records@)),
{
    let mut items: Vec<serde_json::Value> = Vec::new();
    let mut r: usize = 0;
    while r < records.len()
        invariant
            r <= records@.len(),
            items@.len() == r,
            forall|k: int|
                0 <= k < r ==> json_model(#[trigger] items@[k]) == record_document(records@[k]@),
        decreases records@.len() - r,
    {
        items.push(records[r].to_json());
        r += 1;
    }
    assert(json_models(items@) =~= records_view(records@).map_values(
        |entries: Entries| record_document(entries),
    ));
    json_array(items)
}

/// The JSON array of the result sets.
pub fn sets_to_json(sets: &Vec<Vec<Record>>) -> (document: serde_json::Value)
    ensures
        json_model(document) == sets_document(sets_view(sets@)),
{
    let mut items: Vec<serde_json::Value> = Vec::new();
    let mut s: usize = 0;
    while s < sets.len()
        invariant
            s <= sets@.len(),
            items@.len() == s,
            forall|k: int|
                0 <= k < s ==> json_model(#[trigger] items@[k]) == set_document(
                    records_view(sets@[k]@),
                ),
        decreases sets@.len() - s,
    {
        items.push(set_to_json(&sets[s]));
        s += 1;
    }
    assert(json_models(items@) =~= sets_view(sets@).map_values(
        |records: Seq<Entries>| set_document(records),
    ));
    json_array(items)
}

/// The text of the reply document of the result sets.
pub fn recordsets_json(sets: &Vec<Vec<Record>>) -> (text: String)
    ensures
        text@ == json_rendering(recordsets_document(sets_view(sets@))),
{
    let mut pairs: Vec<(String, serde_json::Value)> = Vec::new();
    pairs.push(("recordsets".to_owned(), sets_to_json(sets)));
    assert(json_members(pairs@) =~= seq![("recordsets"@, sets_document(sets_view(sets@)))]);
    let document = json_object(pairs);
    json_render(&document)
}

/// What a query returns to its caller, from what the transport returned for
/// it.
pub fn complete_query(outcome: Result<Vec<Vec<Vec<Field>>>, String>) -> (reply: Result<
    String,
    SessionError,
>)
    ensures
        match query_reply(outcome) {
            Ok(text) => reply matches Ok(t) && t@ == text,
            Err(failure) => reply matches Err(f) && f == failure,
        },
{
    match outcome {
        Err(message) => Err(SessionError::QueryError(message)),
        Ok(sets) => match normalize(&sets) {
            Ok(records) => Ok(recordsets_json(&records)),
            Err(failure) => Err(failure),
        },
    }
}

/// The reply to a query with N result sets holds N arrays, in order; the
/// array of a set with R rows holds R objects, in order; and each object is
/// the record of its row.
pub proof fn law_reply_shape(sets: Seq<Vec<Vec<Field>>>)
    requires
        convertible(sets),
    ensures
        recordsets_document(normalized(sets)) matches JsonModel::Object(members) && members.len()
            == 1 && members[0].0 == "recordsets"@ && (members[0].1 matches JsonModel::List(
            arrays,
        ) && arrays.len() == sets.len() && forall|s: int|
            0 <= s < sets.len() ==> ((#[trigger] arrays[s]) matches JsonModel::List(objects)
                && objects.len() == sets[s]@.len() && forall|r: int|
                0 <= r < sets[s]@.len() ==> (#[trigger] objects[r]) == record_document(
                    row_record(sets[s]@[r]@).unwrap(),
                ))),
{
}

/// The object of a row with C columns whose names differ from each other has
/// C members, in the order of the columns: under each column's name the text
/// of its cell.
pub proof fn law_object_of_distinct_columns(row: Seq<Field>)
    requires
        row_convertible(row),
        distinct_columns(row),
    ensures
        row_record(row) is Some,
        record_document(row_record(row).unwrap()) matches JsonModel::Object(members)
            && members.len() == row.len() && forall|c: int|
            0 <= c < row.len() ==> (#[trigger] members[c]) == (
                row[c].name@,
                JsonModel::Text(normal_text(row[c].cell@).unwrap()),
            ),
{
    law_record_of_distinct_columns(row);
}

} // verus!
