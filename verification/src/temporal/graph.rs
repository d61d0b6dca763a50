//! The queries of the temporal graph: nodes and edges valid at an instant or
//! within a span, filtered by type or by endpoint.

use vstd::prelude::*;
use crate::json::{JsonValue, JsonModel, members_model, lemma_members_model_index};
use crate::text::{int_text, int_to_string, join, texts, join_strings};
use crate::time::{DateTimeUtc, spec_unix_seconds, unix_seconds};
use crate::types::{EntityId, EntityType, EntityTypeModel, entity_type_text, uuid_text, uuid_to_string};
use super::consistency::{ConsistencyCheckResult, ConsistencyViolation};
use super::query::{OptimizedQuery, QueryModel};

verus! {

/// The decimal text of the whole seconds of an instant, as a JSON string.
pub open spec fn seconds_string(t: DateTimeUtc) -> JsonModel {
    JsonModel::Str(int_text(spec_unix_seconds(t as int)))
}

/// A query with a key condition, optional filter and values, and nothing else.
pub open spec fn keyed_query(
    table: Seq<char>,
    key: Seq<char>,
    filter: Option<Seq<char>>,
    values: Seq<(Seq<char>, JsonModel)>,
) -> QueryModel {
    QueryModel {
        table_name: table,
        key_condition: Some(key),
        filter_expression: filter,
        expression_values: Some(JsonModel::Object(values)),
        scan_direction: None,
        limit: None,
    }
}

/// The query for nodes valid at `timestamp`; with a node type, the type
/// filter's value replaces the instant's.
pub open spec fn nodes_at_model(table: Seq<char>, timestamp: DateTimeUtc, node_type: Option<EntityTypeModel>) -> QueryModel {
    let key = "valid_time_start <= :ts AND valid_time_end >= :ts"@;
    match node_type {
        Some(t) => keyed_query(
            table,
            key,
            Some("entity_type = :et"@),
            seq![(":et"@, JsonModel::Str(entity_type_text(t)))],
        ),
        None => keyed_query(table, key, None, seq![(":ts"@, seconds_string(timestamp))]),
    }
}

/// The query for nodes valid at some instant between `start` and `end`.
pub open spec fn nodes_between_model(
    table: Seq<char>,
    start: DateTimeUtc,
    end: DateTimeUtc,
    node_type: Option<EntityTypeModel>,
) -> QueryModel {
    let key = "valid_time_start <= :end AND valid_time_end >= :start"@;
    match node_type {
        Some(t) => keyed_query(
            table,
            key,
            Some("entity_type = :et"@),
            seq![(":et"@, JsonModel::Str(entity_type_text(t)))],
        ),
        None => keyed_query(
            table,
            key,
            None,
            seq![(":start"@, seconds_string(start)), (":end"@, seconds_string(end))],
        ),
    }
}

/// The endpoint conditions of an edge query.
pub open spec fn endpoint_conditions(source_id: Option<u128>, target_id: Option<u128>) -> Seq<Seq<char>> {
    let source: Seq<Seq<char>> = match source_id {
        Some(_) => seq!["source_id = :sid"@],
        None => Seq::empty(),
    };
    let target: Seq<Seq<char>> = match target_id {
        Some(_) => seq!["target_id = :tid"@],
        None => Seq::empty(),
    };
    source + target
}

/// The values of the endpoint conditions of an edge query.
pub open spec fn endpoint_values(source_id: Option<u128>, target_id: Option<u128>) -> Seq<
    (Seq<char>, JsonModel),
> {
    let source: Seq<(Seq<char>, JsonModel)> = match source_id {
        Some(s) => seq![(":sid"@, JsonModel::Str(uuid_text(s)))],
        None => Seq::empty(),
    };
    let target: Seq<(Seq<char>, JsonModel)> = match target_id {
        Some(t) => seq![(":tid"@, JsonModel::Str(uuid_text(t)))],
        None => Seq::empty(),
    };
    source + target
}

/// An edge query with key condition `key` and time values `time_values`;
/// endpoint conditions, where there are any, become the filter and their
/// values replace the time values.
pub open spec fn edge_query_model(
    table: Seq<char>,
    key: Seq<char>,
    time_values: Seq<(Seq<char>, JsonModel)>,
    source_id: Option<u128>,
    target_id: Option<u128>,
) -> QueryModel {
    let conds = endpoint_conditions(source_id, target_id);
    if conds.len() > 0 {
        keyed_query(table, key, Some(join(conds, " AND "@)), endpoint_values(source_id, target_id))
    } else {
        keyed_query(table, key, None, time_values)
    }
}

/// A list of (key, value) members as an object, with its content.
fn object_of(m: Vec<(String, JsonValue)>) -> (o: JsonValue)
    ensures
        o@ == JsonModel::Object(members_model(m@)),
{
    JsonValue::Object(m)
}

/// The text of whole seconds of `t`, as a JSON string.
fn seconds_value(t: DateTimeUtc) -> (v: JsonValue)
    ensures
        v@ == seconds_string(t),
{
    JsonValue::Str(int_to_string(unix_seconds(t)))
}

/// A query on `table` with key condition `key` and values `values`.
fn keyed(table: &str, key: &str, values: JsonValue) -> (q: OptimizedQuery)
    ensures
        q@ == (QueryModel {
            table_name: table@,
            key_condition: Some(key@),
            filter_expression: None,
            expression_values: Some(values@),
            scan_direction: None,
            limit: None,
        }),
{
    OptimizedQuery::new(String::from_str(table)).with_key_condition(String::from_str(key)).with_values(
        values,
    )
}

/// The type filter: the condition and its value replace the values.
fn with_type_filter(q: OptimizedQuery, t: &EntityType) -> (r: OptimizedQuery)
    ensures
        r@ == (QueryModel {
            filter_expression: Some("entity_type = :et"@),
            expression_values: Some(JsonModel::Object(seq![(":et"@, JsonModel::Str(entity_type_text(t@)))])),
            ..q@
        }),
{
    let m = vec![(String::from_str(":et"), JsonValue::Str(t.to_string()))];
    proof {
        lemma_members_model_index(m@);
        assert(members_model(m@) =~= seq![(":et"@, JsonModel::Str(entity_type_text(t@)))]);
    }
    q.with_filter(String::from_str("entity_type = :et")).with_values(object_of(m))
}

/// The type of an optional entity type.
pub open spec fn type_model(t: Option<EntityType>) -> Option<EntityTypeModel> {
    match t {
        Some(x) => Some(x@),
        None => None,
    }
}

/// The query for nodes valid at `timestamp`, optionally of one type.
pub fn nodes_at_query(table: &str, timestamp: DateTimeUtc, node_type: &Option<EntityType>) -> (q:
    OptimizedQuery)
    ensures
        q@ == nodes_at_model(table@, timestamp, type_model(*node_type)),
{
    let m = vec![(String::from_str(":ts"), seconds_value(timestamp))];
    proof {
        lemma_members_model_index(m@);
        assert(members_model(m@) =~= seq![(":ts"@, seconds_string(timestamp))]);
    }
    let q = keyed(table, "valid_time_start <= :ts AND valid_time_end >= :ts", object_of(m));
    match node_type {
        Some(t) => with_type_filter(q, t),
        None => q,
    }
}

/// The query for nodes valid within `start .. end`, optionally of one type.
pub fn nodes_between_query(
    table: &str,
    start: DateTimeUtc,
    end: DateTimeUtc,
    node_type: &Option<EntityType>,
) -> (q: OptimizedQuery)
    ensures
        q@ == nodes_between_model(table@, start, end, type_model(*node_type)),
{
    let m = vec![
        (String::from_str(":start"), seconds_value(start)),
        (String::from_str(":end"), seconds_value(end)),
    ];
    proof {
        lemma_members_model_index(m@);
        assert(members_model(m@) =~= seq![
            (":start"@, seconds_string(start)),
            (":end"@, seconds_string(end)),
        ]);
    }
    let q = keyed(table, "valid_time_start <= :end AND valid_time_end >= :start", object_of(m));
    match node_type {
        Some(t) => with_type_filter(q, t),
        None => q,
    }
}

/// Applies the endpoint conditions of an edge query to `q`.
fn with_endpoints(q: OptimizedQuery, source_id: Option<u128>, target_id: Option<u128>) -> (r: OptimizedQuery)
    ensures
        endpoint_conditions(source_id, target_id).len() > 0 ==> r@ == (QueryModel {
            filter_expression: Some(join(endpoint_conditions(source_id, target_id), " AND "@)),
            expression_values: Some(JsonModel::Object(endpoint_values(source_id, target_id))),
            ..q@
        }),
        endpoint_conditions(source_id, target_id).len() == 0 ==> r@ == q@,
{
    let mut conds: Vec<String> = Vec::new();
    let mut values: Vec<(String, JsonValue)> = Vec::new();
    match source_id {
        Some(s) => {
            conds.push(String::from_str("source_id = :sid"));
            values.push((String::from_str(":sid"), JsonValue::Str(uuid_to_string(s))));
        },
        None => {},
    }
    match target_id {
        Some(t) => {
            conds.push(String::from_str("target_id = :tid"));
            values.push((String::from_str(":tid"), JsonValue::Str(uuid_to_string(t))));
        },
        None => {},
    }
    proof {
        lemma_members_model_index(values@);
        assert(members_model(values@) =~= endpoint_values(source_id, target_id));
        assert(texts(conds@) =~= endpoint_conditions(source_id, target_id));
    }
    if conds.len() > 0 {
        q.with_filter(join_strings(&conds, " AND ")).with_values(object_of(values))
    } else {
        q
    }
}

/// The query for edges valid at `timestamp`, optionally from one node and
/// to another.
pub fn edges_at_query(table: &str, timestamp: DateTimeUtc, source_id: Option<u128>, target_id: Option<u128>) -> (q:
    OptimizedQuery)
    ensures
        q@ == edge_query_model(
            table@,
            "valid_time_start <= :ts AND valid_time_end >= :ts"@,
            seq![(":ts"@, seconds_string(timestamp))],
            source_id,
            target_id,
        ),
{
    let m = vec![(String::from_str(":ts"), seconds_value(timestamp))];
    proof {
        lemma_members_model_index(m@);
        assert(members_model(m@) =~= seq![(":ts"@, seconds_string(timestamp))]);
    }
    let q = keyed(table, "valid_time_start <= :ts AND valid_time_end >= :ts", object_of(m));
    with_endpoints(q, source_id, target_id)
}

/// The query for edges valid within `start .. end`, optionally from one node
/// and to another.
pub fn edges_between_query(
    table: &str,
    start: DateTimeUtc,
    end: DateTimeUtc,
    source_id: Option<u128>,
    target_id: Option<u128>,
) -> (q: OptimizedQuery)
    ensures
        q@ == edge_query_model(
            table@,
            "valid_time_start <= :end AND valid_time_end >= :start"@,
            seq![(":start"@, seconds_string(start)), (":end"@, seconds_string(end))],
            source_id,
            target_id,
        ),
{
    let m = vec![
        (String::from_str(":start"), seconds_value(start)),
        (String::from_str(":end"), seconds_value(end)),
    ];
    proof {
        lemma_members_model_index(m@);
        assert(members_model(m@) =~= seq![
            (":start"@, seconds_string(start)),
            (":end"@, seconds_string(end)),
        ]);
    }
    let q = keyed(table, "valid_time_start <= :end AND valid_time_end >= :start", object_of(m));
    with_endpoints(q, source_id, target_id)
}

/// Whether data of an entity type is kept with the nodes (everything but
/// edges).
pub fn stores_as_node(entity_type: &EntityType) -> (b: bool)
    ensures
        b == (entity_type@ != EntityTypeModel::Edge),
{
    match entity_type {
        EntityType::Edge => false,
        _ => true,
    }
}

/// The identifier under which the latest version of a node or edge is
/// looked up: of the given type, named by the hyphenated identifier.
pub fn latest_lookup_id(entity_type: EntityType, id: u128) -> (r: EntityId)
    ensures
        r.entity_type == entity_type,
        r.id@ == uuid_text(id),
{
    EntityId::new(entity_type, uuid_to_string(id))
}

/// The consistency of the graph from that of its nodes and of its edges:
/// passed when both passed, with the node violations followed by the edge
/// violations.
pub fn merge_consistency(nodes: ConsistencyCheckResult, edges: ConsistencyCheckResult) -> (r:
    ConsistencyCheckResult)
    ensures
        r.passed == (nodes.passed && edges.passed),
        r.violations@ == nodes.violations@ + edges.violations@,
{
    let mut violations = nodes.violations;
    let mut more = edges.violations;
    violations.append(&mut more);
    ConsistencyCheckResult { passed: nodes.passed && edges.passed, violations }
}

} // verus!
