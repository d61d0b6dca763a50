//! The search requests and index mapping of the memory store.

use vstd::prelude::*;
use crate::json::{JsonValue, JsonModel, members_model, lemma_members_model_index, object1, object2, array2};
use crate::text::{nat_text, nat_to_string};
use crate::time::{format_rfc3339, rfc3339_of};
use crate::types::{EntityType, EntityTypeModel, TemporalRange, entity_type_text, uuid_text, uuid_to_string};

verus! {

/// A JSON string.
pub open spec fn jstr(s: Seq<char>) -> JsonModel {
    JsonModel::Str(s)
}

/// A search of at most `limit` hits for `query`.
pub open spec fn sized_search(limit: nat, query: JsonModel) -> JsonModel {
    JsonModel::Object(seq![("size"@, JsonModel::Number(nat_text(limit))), ("query"@, query)])
}

/// An exact match of `field` against `value`.
pub open spec fn term(field: Seq<char>, value: Seq<char>) -> JsonModel {
    JsonModel::Object(seq![("term"@, JsonModel::Object(seq![(field, jstr(value))]))])
}

/// The search for the memories of one node type.
pub open spec fn node_type_search(t: EntityTypeModel, limit: nat) -> JsonModel {
    sized_search(limit, term("node_type"@, entity_type_text(t)))
}

/// The bounds of a creation-time range: `gte` for a start, `lte` for an end.
pub open spec fn range_bounds(range: TemporalRange) -> Seq<(Seq<char>, JsonModel)> {
    let lower: Seq<(Seq<char>, JsonModel)> = match range.start {
        Some(s) => seq![("gte"@, jstr(rfc3339_of(s.0 as int)))],
        None => Seq::empty(),
    };
    let upper: Seq<(Seq<char>, JsonModel)> = match range.end {
        Some(e) => seq![("lte"@, jstr(rfc3339_of(e.0 as int)))],
        None => Seq::empty(),
    };
    lower + upper
}

/// The search for the memories created within a range.
pub open spec fn time_range_search(range: TemporalRange, limit: nat) -> JsonModel {
    sized_search(
        limit,
        JsonModel::Object(
            seq![("range"@, JsonModel::Object(seq![("created_at"@, JsonModel::Object(range_bounds(range)))]))],
        ),
    )
}

/// A boolean search: `occur` (`should` or `must`) of the two endpoint terms.
pub open spec fn endpoint_search(occur: Seq<char>, source: u128, target: u128, limit: nat) -> JsonModel {
    sized_search(
        limit,
        JsonModel::Object(
            seq![
                ("bool"@, JsonModel::Object(
                    seq![(occur, JsonModel::Array(
                        seq![term("source_id"@, uuid_text(source)), term("target_id"@, uuid_text(target))],
                    ))],
                )),
            ],
        ),
    )
}

/// A field of the index mapping with its type.
pub open spec fn typed(t: Seq<char>) -> JsonModel {
    JsonModel::Object(seq![("type"@, jstr(t))])
}

/// The mapping of the memory index, with embeddings of `dims` dimensions.
pub open spec fn index_mapping_model(dims: nat) -> JsonModel {
    JsonModel::Object(
        seq![
            ("mappings"@, JsonModel::Object(
                seq![
                    ("properties"@, JsonModel::Object(
                        seq![
                            ("id"@, typed("keyword"@)),
                            ("embedding"@, JsonModel::Object(
                                seq![
                                    ("type"@, jstr("dense_vector"@)),
                                    ("dims"@, JsonModel::Number(nat_text(dims))),
                                    ("index"@, JsonModel::Bool(true)),
                                    ("similarity"@, jstr("cosine"@)),
                                ],
                            )),
                            ("metadata"@, typed("object"@)),
                            ("created_at"@, typed("date"@)),
                            ("node_type"@, typed("keyword"@)),
                            ("source_id"@, typed("keyword"@)),
                            ("target_id"@, typed("keyword"@)),
                        ],
                    )),
                ],
            )),
        ],
    )
}

/// The JSON number of a count.
fn count_value(n: usize) -> (v: JsonValue)
    ensures
        v@ == JsonModel::Number(nat_text(n as nat)),
{
    JsonValue::Number(nat_to_string(n as u128))
}

/// A search of at most `limit` hits for `query`.
fn sized(limit: usize, query: JsonValue) -> (v: JsonValue)
    ensures
        v@ == sized_search(limit as nat, query@),
{
    object2("size", count_value(limit), "query", query)
}

/// An exact match of `field` against `value`.
fn term_value(field: &str, value: String) -> (v: JsonValue)
    ensures
        v@ == term(field@, value@),
{
    object1("term", object1(field, JsonValue::Str(value)))
}

/// The search for the memories of one node type, at most `limit` of them.
pub fn node_type_query(node_type: &EntityType, limit: usize) -> (q: JsonValue)
    ensures
        q@ == node_type_search(node_type@, limit as nat),
{
    sized(limit, term_value("node_type", node_type.to_string()))
}

/// The search for the memories created within `range` (its start as the
/// lower bound, its end as the upper, each in RFC 3339), at most `limit` of
/// them.
pub fn time_range_query(range: &TemporalRange, limit: usize) -> (q: JsonValue)
    ensures
        q@ == time_range_search(*range, limit as nat),
{
    let mut bounds: Vec<(String, JsonValue)> = Vec::new();
    if let Some(s) = range.start {
        bounds.push((String::from_str("gte"), JsonValue::Str(format_rfc3339(s.0))));
    }
    if let Some(e) = range.end {
        bounds.push((String::from_str("lte"), JsonValue::Str(format_rfc3339(e.0))));
    }
    proof {
        lemma_members_model_index(bounds@);
        assert(members_model(bounds@) =~= range_bounds(*range));
    }
    let created = object1("created_at", JsonValue::Object(bounds));
    sized(limit, object1("range", created))
}

/// Two endpoint terms joined by `occur`.
fn endpoint_query(occur: &str, source: u128, target: u128, limit: usize) -> (q: JsonValue)
    ensures
        q@ == endpoint_search(occur@, source, target, limit as nat),
{
    let terms = array2(
        term_value("source_id", uuid_to_string(source)),
        term_value("target_id", uuid_to_string(target)),
    );
    sized(limit, object1("bool", object1(occur, terms)))
}

/// The search for the memories that touch a node, as source or as target,
/// at most `limit` of them.
pub fn node_memories_query(node_id: u128, limit: usize) -> (q: JsonValue)
    ensures
        q@ == endpoint_search("should"@, node_id, node_id, limit as nat),
{
    endpoint_query("should", node_id, node_id, limit)
}

/// The search for the memories of an edge, with both its source and its
/// target, at most `limit` of them.
pub fn edge_memories_query(source_id: u128, target_id: u128, limit: usize) -> (q: JsonValue)
    ensures
        q@ == endpoint_search("must"@, source_id, target_id, limit as nat),
{
    endpoint_query("must", source_id, target_id, limit)
}

/// The search for the memory with a given identifier.
pub fn id_query(id: &str) -> (q: JsonValue)
    ensures
        q@ == JsonModel::Object(seq![("query"@, term("id"@, id@))]),
{
    object1("query", term_value("id", String::from_str(id)))
}

/// A field of the index mapping with its type.
fn typed_value(t: &str) -> (v: JsonValue)
    ensures
        v@ == typed(t@),
{
    object1("type", JsonValue::Str(String::from_str(t)))
}

/// The mapping of the memory index, with embeddings of `dims` dimensions.
pub fn index_mapping(dims: usize) -> (m: JsonValue)
    ensures
        m@ == index_mapping_model(dims as nat),
{
    let embedding = vec![
        (String::from_str("type"), JsonValue::Str(String::from_str("dense_vector"))),
        (String::from_str("dims"), count_value(dims)),
        (String::from_str("index"), JsonValue::Bool(true)),
        (String::from_str("similarity"), JsonValue::Str(String::from_str("cosine"))),
    ];
    proof {
        lemma_members_model_index(embedding@);
    }
    assert(members_model(embedding@) =~= seq![
        ("type"@, jstr("dense_vector"@)),
        ("dims"@, JsonModel::Number(nat_text(dims as nat))),
        ("index"@, JsonModel::Bool(true)),
        ("similarity"@, jstr("cosine"@)),
    ]);
    let properties = vec![
        (String::from_str("id"), typed_value("keyword")),
        (String::from_str("embedding"), JsonValue::Object(embedding)),
        (String::from_str("metadata"), typed_value("object")),
        (String::from_str("created_at"), typed_value("date")),
        (String::from_str("node_type"), typed_value("keyword")),
        (String::from_str("source_id"), typed_value("keyword")),
        (String::from_str("target_id"), typed_value("keyword")),
    ];
    proof {
        lemma_members_model_index(properties@);
    }
    assert(members_model(properties@) =~= seq![
        ("id"@, typed("keyword"@)),
        ("embedding"@, JsonModel::Object(seq![
            ("type"@, jstr("dense_vector"@)),
            ("dims"@, JsonModel::Number(nat_text(dims as nat))),
            ("index"@, JsonModel::Bool(true)),
            ("similarity"@, jstr("cosine"@)),
        ])),
        ("metadata"@, typed("object"@)),
        ("created_at"@, typed("date"@)),
        ("node_type"@, typed("keyword"@)),
        ("source_id"@, typed("keyword"@)),
        ("target_id"@, typed("keyword"@)),
    ]);
    object1("mappings", object1("properties", JsonValue::Object(properties)))
}

} // verus!
