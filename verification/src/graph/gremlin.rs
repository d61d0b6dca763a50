//! Reading the results of Gremlin queries: vertices into nodes, edges into
//! edges, and property values into JSON.

use vstd::prelude::*;
use crate::error::Error;
use crate::json::{
    JsonValue, JsonModel, members_model, models_of, model_set, model_set_all, insert_member,
    lemma_member_set_model, lemma_members_model_index,
};
use crate::text::{int_text, int_to_string, concat2};
use crate::time::DateTimeUtc;
use crate::types::{
    Edge, EdgeId, EntityType, EntityTypeModel, Node, NodeId, Properties, TemporalRange, Timestamp,
    entity_type_of_lower, lowercase, parse_uuid, uuid_error_text, uuid_parse,
};

verus! {

/// The identifier of a vertex or edge as the graph store reports it.
#[derive(Debug, Clone)]
pub enum GremlinId {
    /// A text identifier.
    Text(String),
    Int32(i32),
    Int64(i64),
    /// Any other identifier, by its debug text.
    Other(String),
}

/// A value in a Gremlin result.
#[derive(Debug)]
pub enum GremlinValue {
    Null,
    String(String),
    Int32(i32),
    Int64(i64),
    /// A floating-point number, as its JSON numeral, or `None` when it is not
    /// finite.
    Decimal(Option<String>),
    List(Vec<GremlinValue>),
    /// A map, each key by its text.
    Dictionary(Vec<(String, GremlinValue)>),
    Vertex(GremlinVertex),
    Edge(GremlinEdge),
    /// Any other value.
    Other,
}

/// A vertex: its identifier, label, and the values of each property.
#[derive(Debug)]
pub struct GremlinVertex {
    pub id: GremlinId,
    pub label: String,
    pub properties: Vec<(String, Vec<GremlinValue>)>,
}

/// An edge: its identifier, label, endpoints and properties.
#[derive(Debug)]
pub struct GremlinEdge {
    pub id: GremlinId,
    pub label: String,
    pub out_v: GremlinId,
    pub in_v: GremlinId,
    pub properties: Vec<(String, GremlinValue)>,
}

/// The values a query returned.
#[derive(Debug)]
pub struct LocalResultSet(pub Vec<GremlinValue>);

// ---------------------------------------------------------------------------
// Specification
// ---------------------------------------------------------------------------

/// The text of an identifier.
pub open spec fn gid_text(id: GremlinId) -> Seq<char> {
    match id {
        GremlinId::Text(s) => s@,
        GremlinId::Int32(i) => int_text(i as int),
        GremlinId::Int64(i) => int_text(i as int),
        GremlinId::Other(d) => d@,
    }
}

/// The JSON value of a property value: strings, integers, finite numbers
/// and lists carry over; a map carries its entries over (a later entry
/// replacing an earlier one with the same key) when `keep_maps` holds and is
/// an empty object otherwise; anything else is null.
pub open spec fn property_json(v: GremlinValue, keep_maps: bool) -> JsonModel
    decreases v,
{
    match v {
        GremlinValue::String(s) => JsonModel::Str(s@),
        GremlinValue::Int32(i) => JsonModel::Number(int_text(i as int)),
        GremlinValue::Int64(i) => JsonModel::Number(int_text(i as int)),
        GremlinValue::Decimal(Some(t)) => JsonModel::Number(t@),
        GremlinValue::List(items) => JsonModel::Array(property_list(items@, keep_maps)),
        GremlinValue::Dictionary(entries) => if keep_maps {
            JsonModel::Object(model_set_all(Seq::empty(), property_entries(entries@, keep_maps)))
        } else {
            JsonModel::Object(Seq::empty())
        },
        _ => JsonModel::Null,
    }
}

/// The JSON values of a list of property values.
pub open spec fn property_list(items: Seq<GremlinValue>, keep_maps: bool) -> Seq<JsonModel>
    decreases items,
{
    if items.len() == 0 {
        Seq::empty()
    } else {
        property_list(items.drop_last(), keep_maps).push(property_json(items.last(), keep_maps))
    }
}

/// The (key, JSON value) pairs of map entries, in order.
pub open spec fn property_entries(entries: Seq<(String, GremlinValue)>, keep_maps: bool) -> Seq<
    (Seq<char>, JsonModel),
>
    decreases entries,
{
    if entries.len() == 0 {
        Seq::empty()
    } else {
        property_entries(entries.drop_last(), keep_maps).push(
            (entries.last().0@, property_json(entries.last().1, keep_maps)),
        )
    }
}

/// The properties of a vertex: for each key with a value, its first value.
pub open spec fn vertex_entries(ps: Seq<(String, Vec<GremlinValue>)>, keep_maps: bool) -> Seq<
    (Seq<char>, JsonModel),
>
    decreases ps.len(),
{
    if ps.len() == 0 {
        Seq::empty()
    } else {
        let rest = vertex_entries(ps.drop_last(), keep_maps);
        if ps.last().1@.len() > 0 {
            rest.push((ps.last().0@, property_json(ps.last().1@[0], keep_maps)))
        } else {
            rest
        }
    }
}

/// The range that starts at `now` and is open-ended.
pub open spec fn from_instant(now: DateTimeUtc) -> TemporalRange {
    TemporalRange { start: Some(Timestamp(now)), end: None }
}

/// Whether `n` is the node that vertex `v` describes, read at `now`.
pub open spec fn vertex_node(v: GremlinVertex, now: DateTimeUtc, n: Node) -> bool {
    &&& uuid_parse(gid_text(v.id)) == Some(n.id.0)
    &&& n.entity_type@ == entity_type_of_lower(lowercase(v.label@))
    &&& n.label@ == v.label@
    &&& members_model(n.properties.0@) == model_set_all(Seq::empty(), vertex_entries(v.properties@, true))
    &&& n.valid_time == from_instant(now)
    &&& n.transaction_time == from_instant(now)
}

/// Whether `e` is the edge that Gremlin edge `g` describes, read at `now`.
pub open spec fn edge_edge(g: GremlinEdge, now: DateTimeUtc, e: Edge) -> bool {
    &&& uuid_parse(gid_text(g.id)) == Some(e.id.0)
    &&& uuid_parse(gid_text(g.out_v)) == Some(e.source_id.0)
    &&& uuid_parse(gid_text(g.in_v)) == Some(e.target_id.0)
    &&& e.label@ == g.label@
    &&& members_model(e.properties.0@) == model_set_all(Seq::empty(), property_entries(g.properties@, true))
    &&& e.valid_time == from_instant(now)
    &&& e.transaction_time == from_instant(now)
}

/// The identifier text that cannot be read, among those of an edge (the
/// edge's own, then its source, then its target), if any.
pub open spec fn unreadable_edge_id(g: GremlinEdge) -> Option<Seq<char>> {
    if uuid_parse(gid_text(g.id)) is None {
        Some(gid_text(g.id))
    } else if uuid_parse(gid_text(g.out_v)) is None {
        Some(gid_text(g.out_v))
    } else if uuid_parse(gid_text(g.in_v)) is None {
        Some(gid_text(g.in_v))
    } else {
        None
    }
}

// ---------------------------------------------------------------------------
// Reading
// ---------------------------------------------------------------------------

/// The text of an identifier.
pub fn gid_to_string(id: &GremlinId) -> (s: String)
    ensures
        s@ == gid_text(*id),
{
    match id {
        GremlinId::Text(s) => s.clone(),
        GremlinId::Int32(i) => int_to_string(*i as i128),
        GremlinId::Int64(i) => int_to_string(*i as i128),
        GremlinId::Other(d) => d.clone(),
    }
}

/// The JSON value of a property value; maps keep their entries when
/// `keep_maps` holds.
pub(crate) fn convert_value(v: &GremlinValue, keep_maps: bool) -> (r: JsonValue)
    ensures
        r@ == property_json(*v, keep_maps),
    decreases v,
{
    match v {
        GremlinValue::String(s) => JsonValue::Str(s.clone()),
        GremlinValue::Int32(i) => JsonValue::Number(int_to_string(*i as i128)),
        GremlinValue::Int64(i) => JsonValue::Number(int_to_string(*i as i128)),
        GremlinValue::Decimal(Some(t)) => JsonValue::Number(t.clone()),
        GremlinValue::List(items) => {
            let mut out: Vec<JsonValue> = Vec::new();
            let mut i: usize = 0;
            while i < items.len()
                invariant
                    0 <= i <= items@.len(),
                    *v == GremlinValue::List(*items),
                    models_of(out@) == property_list(items@.subrange(0, i as int), keep_maps),
                decreases items@.len() - i,
            {
                proof {
                    assert(decreases_to!(*v => (*v)->List_0));
                    assert(decreases_to!(*items => items@));
                    assert(decreases_to!(items@ => items@[i as int]));
                }
                let c = convert_value(&items[i], keep_maps);
                let ghost before = out@;
                out.push(c);
                proof {
                    assert(out@.drop_last() == before);
                    assert(items@.subrange(0, i + 1).drop_last() =~= items@.subrange(0, i as int));
                }
                i = i + 1;
            }
            assert(items@.subrange(0, items@.len() as int) =~= items@);
            JsonValue::Array(out)
        },
        GremlinValue::Dictionary(entries) => {
            if !keep_maps {
                let empty: Vec<(String, JsonValue)> = Vec::new();
                assert(members_model(empty@) =~= Seq::empty());
                return JsonValue::Object(empty);
            }
            let mut out: Vec<(String, JsonValue)> = Vec::new();
            let mut i: usize = 0;
            proof {
                assert(members_model(out@) =~= Seq::empty());
            }
            while i < entries.len()
                invariant
                    0 <= i <= entries@.len(),
                    *v == GremlinValue::Dictionary(*entries),
                    keep_maps,
                    members_model(out@) == model_set_all(
                        Seq::empty(),
                        property_entries(entries@.subrange(0, i as int), keep_maps),
                    ),
                decreases entries@.len() - i,
            {
                proof {
                    assert(decreases_to!(*v => (*v)->Dictionary_0));
                    assert(decreases_to!(*entries => entries@));
                    assert(decreases_to!(entries@ => entries@[i as int]));
                    assert(decreases_to!(entries@[i as int] => entries@[i as int].1));
                }
                let c = convert_value(&entries[i].1, keep_maps);
                let ghost before = out@;
                let ghost cv = c;
                let key = entries[i].0.clone();
                let ghost k = key@;
                insert_member(&mut out, key, c);
                proof {
                    lemma_member_set_model(before, k, cv, out@);
                    let a = entries@.subrange(0, i as int);
                    let a1 = entries@.subrange(0, i + 1);
                    assert(a1.drop_last() =~= a);
                    assert(property_entries(a1, keep_maps) == property_entries(a, keep_maps).push((k, cv@)));
                    assert(property_entries(a, keep_maps).push((k, cv@)).drop_last() =~= property_entries(
                        a,
                        keep_maps,
                    ));
                }
                i = i + 1;
            }
            assert(entries@.subrange(0, entries@.len() as int) =~= entries@);
            JsonValue::Object(out)
        },
        _ => JsonValue::Null,
    }
}

/// The JSON value of a property value, maps keeping their entries.
pub fn convert_property_value(v: &GremlinValue) -> (r: JsonValue)
    ensures
        r@ == property_json(*v, true),
{
    convert_value(v, true)
}

/// The properties of a vertex: for each key with a value, its first value.
pub(crate) fn vertex_properties(ps: &Vec<(String, Vec<GremlinValue>)>, keep_maps: bool) -> (r: Properties)
    ensures
        members_model(r.0@) == model_set_all(Seq::empty(), vertex_entries(ps@, keep_maps)),
{
    let mut props = Properties::new();
    proof {
        assert(members_model(props.0@) =~= Seq::empty());
    }
    let mut i: usize = 0;
    while i < ps.len()
        invariant
            0 <= i <= ps@.len(),
            members_model(props.0@) == model_set_all(
                Seq::empty(),
                vertex_entries(ps@.subrange(0, i as int), keep_maps),
            ),
        decreases ps@.len() - i,
    {
        let ghost a = ps@.subrange(0, i as int);
        let ghost a1 = ps@.subrange(0, i + 1);
        proof {
            assert(a1.drop_last() =~= a);
            assert(a1.last() == ps@[i as int]);
        }
        if ps[i].1.len() > 0 {
            let c = convert_value(&ps[i].1[0], keep_maps);
            let ghost before = props.0@;
            let ghost cv = c;
            let key = ps[i].0.clone();
            let ghost k = key@;
            props.insert(key, c);
            proof {
                lemma_member_set_model(before, k, cv, props.0@);
                assert(vertex_entries(a, keep_maps).push((k, cv@)).drop_last() =~= vertex_entries(
                    a,
                    keep_maps,
                ));
            }
        }
        i = i + 1;
    }
    assert(ps@.subrange(0, ps@.len() as int) =~= ps@);
    props
}

/// The properties of an edge, each key with its value.
pub(crate) fn edge_properties(ps: &Vec<(String, GremlinValue)>, keep_maps: bool) -> (r: Properties)
    ensures
        members_model(r.0@) == model_set_all(Seq::empty(), property_entries(ps@, keep_maps)),
{
    let mut props = Properties::new();
    proof {
        assert(members_model(props.0@) =~= Seq::empty());
    }
    let mut i: usize = 0;
    while i < ps.len()
        invariant
            0 <= i <= ps@.len(),
            members_model(props.0@) == model_set_all(
                Seq::empty(),
                property_entries(ps@.subrange(0, i as int), keep_maps),
            ),
        decreases ps@.len() - i,
    {
        let ghost a = ps@.subrange(0, i as int);
        let ghost a1 = ps@.subrange(0, i + 1);
        proof {
            assert(a1.drop_last() =~= a);
            assert(a1.last() == ps@[i as int]);
        }
        let c = convert_value(&ps[i].1, keep_maps);
        let ghost before = props.0@;
        let ghost cv = c;
        let key = ps[i].0.clone();
        let ghost k = key@;
        props.insert(key, c);
        proof {
            lemma_member_set_model(before, k, cv, props.0@);
            assert(property_entries(a, keep_maps).push((k, cv@)).drop_last() =~= property_entries(
                a,
                keep_maps,
            ));
        }
        i = i + 1;
    }
    assert(ps@.subrange(0, ps@.len() as int) =~= ps@);
    props
}

/// Reads an identifier; an unreadable one is refused with `Uuid` and the
/// parser's message.
pub(crate) fn read_id(id: &GremlinId) -> (r: Result<u128, Error>)
    ensures
        match r {
            Ok(v) => uuid_parse(gid_text(*id)) == Some(v),
            Err(e) => uuid_parse(gid_text(*id)) is None && (e matches Error::Uuid(m) && m@
                == uuid_error_text(gid_text(*id))),
        },
{
    let text = gid_to_string(id);
    match parse_uuid(text.as_str()) {
        Ok(v) => Ok(v),
        Err(m) => Err(Error::Uuid(m)),
    }
}

/// The node a vertex describes, read at `now`; a vertex whose identifier is
/// not readable is refused with `Uuid`.
pub fn node_from_vertex(v: &GremlinVertex, now: DateTimeUtc) -> (r: Result<Node, Error>)
    ensures
        match r {
            Ok(n) => vertex_node(*v, now, n),
            Err(e) => uuid_parse(gid_text(v.id)) is None && (e matches Error::Uuid(m) && m@
                == uuid_error_text(gid_text(v.id))),
        },
{
    let id = match read_id(&v.id) {
        Ok(id) => id,
        Err(e) => {
            return Err(e);
        },
    };
    let entity_type = match EntityType::from_str(v.label.as_str()) {
        Ok(t) => t,
        Err(e) => {
            return Err(e);
        },
    };
    let properties = vertex_properties(&v.properties, true);
    Ok(
        Node {
            id: NodeId(id),
            entity_type,
            label: v.label.clone(),
            properties,
            valid_time: TemporalRange { start: Some(Timestamp(now)), end: None },
            transaction_time: TemporalRange { start: Some(Timestamp(now)), end: None },
        },
    )
}

/// The edge a Gremlin edge describes, read at `now`; refused with `Uuid` at
/// the first identifier (the edge's, its source's, its target's) that is not
/// readable.
pub fn edge_from_gremlin(g: &GremlinEdge, now: DateTimeUtc) -> (r: Result<Edge, Error>)
    ensures
        match r {
            Ok(e) => edge_edge(*g, now, e) && unreadable_edge_id(*g) is None,
            Err(e) => unreadable_edge_id(*g) matches Some(t) && e matches Error::Uuid(m) && m@
                == uuid_error_text(t),
        },
{
    let id = match read_id(&g.id) {
        Ok(x) => x,
        Err(e) => {
            return Err(e);
        },
    };
    let source = match read_id(&g.out_v) {
        Ok(x) => x,
        Err(e) => {
            return Err(e);
        },
    };
    let target = match read_id(&g.in_v) {
        Ok(x) => x,
        Err(e) => {
            return Err(e);
        },
    };
    let properties = edge_properties(&g.properties, true);
    Ok(
        Edge {
            id: EdgeId(id),
            source_id: NodeId(source),
            target_id: NodeId(target),
            label: g.label.clone(),
            properties,
            valid_time: TemporalRange { start: Some(Timestamp(now)), end: None },
            transaction_time: TemporalRange { start: Some(Timestamp(now)), end: None },
        },
    )
}

/// The single node of a result: refused with `NotFound` when there is no
/// result, with `Neptune` when the first result is not a vertex, and as
/// `node_from_vertex` refuses the vertex.
pub fn node_from_results(results: &LocalResultSet, now: DateTimeUtc) -> (r: Result<Node, Error>)
    ensures
        results.0@.len() == 0 ==> (r matches Err(Error::NotFound(m)) && m@ == "Node not found"@),
        results.0@.len() > 0 ==> match results.0@[0] {
            GremlinValue::Vertex(v) => match r {
                Ok(n) => vertex_node(v, now, n),
                Err(e) => uuid_parse(gid_text(v.id)) is None && (e matches Error::Uuid(m) && m@
                    == uuid_error_text(gid_text(v.id))),
            },
            _ => r matches Err(Error::Neptune(m)) && m@ == "Expected vertex result"@,
        },
{
    if results.0.len() == 0 {
        return Err(Error::NotFound(String::from_str("Node not found")));
    }
    match &results.0[0] {
        GremlinValue::Vertex(v) => node_from_vertex(v, now),
        _ => Err(Error::Neptune(String::from_str("Expected vertex result"))),
    }
}

/// The node of a result if there is one: nothing for an empty result,
/// otherwise as `node_from_results`.
pub fn optional_node_from_results(results: &LocalResultSet, now: DateTimeUtc) -> (r: Result<Option<Node>, Error>)
    ensures
        results.0@.len() == 0 ==> r matches Ok(None),
        results.0@.len() > 0 ==> match results.0@[0] {
            GremlinValue::Vertex(v) => match r {
                Ok(Some(n)) => vertex_node(v, now, n),
                Ok(None) => false,
                Err(e) => uuid_parse(gid_text(v.id)) is None && (e matches Error::Uuid(m) && m@
                    == uuid_error_text(gid_text(v.id))),
            },
            _ => r matches Err(Error::Neptune(m)) && m@ == "Expected vertex result"@,
        },
{
    if results.0.len() == 0 {
        return Ok(None);
    }
    match node_from_results(results, now) {
        Ok(n) => Ok(Some(n)),
        Err(e) => Err(e),
    }
}

/// The single edge of a result: refused with `NotFound` when there is no
/// result, with `Neptune` when the first result is not an edge, and as
/// `edge_from_gremlin` refuses the edge.
pub fn edge_from_results(results: &LocalResultSet, now: DateTimeUtc) -> (r: Result<Edge, Error>)
    ensures
        results.0@.len() == 0 ==> (r matches Err(Error::NotFound(m)) && m@ == "Edge not found"@),
        results.0@.len() > 0 ==> match results.0@[0] {
            GremlinValue::Edge(g) => match r {
                Ok(e) => edge_edge(g, now, e),
                Err(e) => unreadable_edge_id(g) matches Some(t) && (e matches Error::Uuid(m) && m@
                    == uuid_error_text(t)),
            },
            _ => r matches Err(Error::Neptune(m)) && m@ == "Expected edge result"@,
        },
{
    if results.0.len() == 0 {
        return Err(Error::NotFound(String::from_str("Edge not found")));
    }
    match &results.0[0] {
        GremlinValue::Edge(g) => edge_from_gremlin(g, now),
        _ => Err(Error::Neptune(String::from_str("Expected edge result"))),
    }
}

/// Whether a result is a vertex with a readable identifier.
pub open spec fn readable_vertex(v: GremlinValue) -> bool {
    v matches GremlinValue::Vertex(x) && uuid_parse(gid_text(x.id)) is Some
}

/// Whether a result is an edge with readable identifiers.
pub open spec fn readable_edge(v: GremlinValue) -> bool {
    v matches GremlinValue::Edge(x) && unreadable_edge_id(x) is None
}

/// The refusal for a result that is not a readable vertex.
pub open spec fn vertex_refusal(v: GremlinValue, e: Error) -> bool {
    match v {
        GremlinValue::Vertex(x) => e matches Error::Uuid(m) && m@ == uuid_error_text(gid_text(x.id)),
        _ => e matches Error::Neptune(m) && m@ == "Expected vertex result"@,
    }
}

/// The refusal for a result that is not a readable edge.
pub open spec fn edge_refusal(v: GremlinValue, e: Error) -> bool {
    match v {
        GremlinValue::Edge(x) => unreadable_edge_id(x) matches Some(t) && (e matches Error::Uuid(m)
            && m@ == uuid_error_text(t)),
        _ => e matches Error::Neptune(m) && m@ == "Expected edge result"@,
    }
}

/// Every result as a node, in order; refused at the first result that is not
/// a readable vertex.
pub fn nodes_from_results(results: &LocalResultSet, now: DateTimeUtc) -> (r: Result<Vec<Node>, Error>)
    ensures
        match r {
            Ok(nodes) => nodes@.len() == results.0@.len() && forall|i: int|
                0 <= i < nodes@.len() ==> (results.0@[i] matches GremlinValue::Vertex(v)
                    && vertex_node(v, now, #[trigger] nodes@[i])),
            Err(e) => exists|i: int|
                0 <= i < results.0@.len() && (forall|j: int| 0 <= j < i ==> readable_vertex(#[trigger] results.0@[j]))
                    && !readable_vertex(results.0@[i]) && vertex_refusal(results.0@[i], e),
        },
{
    let mut nodes: Vec<Node> = Vec::new();
    let mut i: usize = 0;
    while i < results.0.len()
        invariant
            0 <= i <= results.0@.len(),
            nodes@.len() == i,
            forall|k: int| 0 <= k < i ==> readable_vertex(#[trigger] results.0@[k]),
            forall|k: int|
                0 <= k < i ==> (results.0@[k] matches GremlinValue::Vertex(v) && vertex_node(
                    v,
                    now,
                    #[trigger] nodes@[k],
                )),
        decreases results.0@.len() - i,
    {
        match &results.0[i] {
            GremlinValue::Vertex(v) => match node_from_vertex(v, now) {
                Ok(n) => {
                    nodes.push(n);
                },
                Err(e) => {
                    assert(!readable_vertex(results.0@[i as int]));
                    return Err(e);
                },
            },
            _ => {
                assert(!readable_vertex(results.0@[i as int]));
                return Err(Error::Neptune(String::from_str("Expected vertex result")));
            },
        }
        i = i + 1;
    }
    Ok(nodes)
}

/// Every result as an edge, in order; refused at the first result that is
/// not a readable edge.
pub fn edges_from_results(results: &LocalResultSet, now: DateTimeUtc) -> (r: Result<Vec<Edge>, Error>)
    ensures
        match r {
            Ok(edges) => edges@.len() == results.0@.len() && forall|i: int|
                0 <= i < edges@.len() ==> (results.0@[i] matches GremlinValue::Edge(g)
                    && edge_edge(g, now, #[trigger] edges@[i])),
            Err(e) => exists|i: int|
                0 <= i < results.0@.len() && (forall|j: int| 0 <= j < i ==> readable_edge(#[trigger] results.0@[j]))
                    && !readable_edge(results.0@[i]) && edge_refusal(results.0@[i], e),
        },
{
    let mut edges: Vec<Edge> = Vec::new();
    let mut i: usize = 0;
    while i < results.0.len()
        invariant
            0 <= i <= results.0@.len(),
            edges@.len() == i,
            forall|k: int| 0 <= k < i ==> readable_edge(#[trigger] results.0@[k]),
            forall|k: int|
                0 <= k < i ==> (results.0@[k] matches GremlinValue::Edge(g) && edge_edge(
                    g,
                    now,
                    #[trigger] edges@[k],
                )),
        decreases results.0@.len() - i,
    {
        match &results.0[i] {
            GremlinValue::Edge(g) => match edge_from_gremlin(g, now) {
                Ok(e) => {
                    edges.push(e);
                },
                Err(e) => {
                    assert(!readable_edge(results.0@[i as int]));
                    return Err(e);
                },
            },
            _ => {
                assert(!readable_edge(results.0@[i as int]));
                return Err(Error::Neptune(String::from_str("Expected edge result")));
            },
        }
        i = i + 1;
    }
    Ok(edges)
}

/// The identifier the first result holds, when it is a text: refused with
/// `NotFound` (`missing`) for an empty result, with `InvalidId` when the
/// first result is not text (`not_text` followed by its debug text, given
/// as `first_debug`) or its text is not an identifier.
fn id_from_results(results: &LocalResultSet, missing: &str, not_text: &str, first_debug: &str) -> (r: Result<
    u128,
    Error,
>)
    ensures
        results.0@.len() == 0 ==> (r matches Err(Error::NotFound(m)) && m@ == missing@),
        results.0@.len() > 0 ==> match results.0@[0] {
            GremlinValue::String(s) => match uuid_parse(s@) {
                Some(v) => r matches Ok(x) && x == v,
                None => r matches Err(Error::InvalidId(m)) && m@ == "Failed to parse UUID: "@ + uuid_error_text(s@),
            },
            _ => r matches Err(Error::InvalidId(m)) && m@ == not_text@ + first_debug@,
        },
{
    if results.0.len() == 0 {
        return Err(Error::NotFound(String::from_str(missing)));
    }
    match &results.0[0] {
        GremlinValue::String(s) => match parse_uuid(s.as_str()) {
            Ok(v) => Ok(v),
            Err(m) => Err(Error::InvalidId(concat2("Failed to parse UUID: ", m.as_str()))),
        },
        _ => Err(Error::InvalidId(concat2(not_text, first_debug))),
    }
}

/// The node identifier a result holds; see `id_from_results`.
pub fn node_id_from_results(results: &LocalResultSet, first_debug: &str) -> (r: Result<NodeId, Error>)
    ensures
        results.0@.len() == 0 ==> (r matches Err(Error::NotFound(m)) && m@ == "No node ID found in result set"@),
        results.0@.len() > 0 ==> match results.0@[0] {
            GremlinValue::String(s) => match uuid_parse(s@) {
                Some(v) => r matches Ok(x) && x.0 == v,
                None => r matches Err(Error::InvalidId(m)) && m@ == "Failed to parse UUID: "@ + uuid_error_text(s@),
            },
            _ => r matches Err(Error::InvalidId(m)) && m@ == "Expected string value for node ID, got "@
                + first_debug@,
        },
{
    match id_from_results(
        results,
        "No node ID found in result set",
        "Expected string value for node ID, got ",
        first_debug,
    ) {
        Ok(v) => Ok(NodeId(v)),
        Err(e) => Err(e),
    }
}

/// The edge identifier a result holds; see `id_from_results`.
pub fn edge_id_from_results(results: &LocalResultSet, first_debug: &str) -> (r: Result<EdgeId, Error>)
    ensures
        results.0@.len() == 0 ==> (r matches Err(Error::NotFound(m)) && m@ == "No edge ID found in result set"@),
        results.0@.len() > 0 ==> match results.0@[0] {
            GremlinValue::String(s) => match uuid_parse(s@) {
                Some(v) => r matches Ok(x) && x.0 == v,
                None => r matches Err(Error::InvalidId(m)) && m@ == "Failed to parse UUID: "@ + uuid_error_text(s@),
            },
            _ => r matches Err(Error::InvalidId(m)) && m@ == "Expected string value for edge ID, got "@
                + first_debug@,
        },
{
    match id_from_results(
        results,
        "No edge ID found in result set",
        "Expected string value for edge ID, got ",
        first_debug,
    ) {
        Ok(v) => Ok(EdgeId(v)),
        Err(e) => Err(e),
    }
}

} // verus!
