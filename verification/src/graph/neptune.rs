//! The decisions of the Neptune-backed graph: which temporal ranges it
//! accepts, and how it reads the vertices and edges Neptune returns.  The
//! requests themselves are sent by the caller, which also decodes the stored
//! temporal ranges.

use vstd::prelude::*;
use crate::error::Error;
use crate::text::concat2;
use crate::json::{JsonValue, JsonModel, members_model, model_get, model_set_all, get_member, as_str};
use crate::types::{EdgeId, EntityType, EntityTypeModel, NodeId, Properties, TemporalRange, uuid_error_text, uuid_parse};
use super::gremlin::{
    GremlinEdge, GremlinId, GremlinValue, GremlinVertex, convert_value, edge_properties, gid_text,
    gid_to_string, property_entries, property_json, read_id, vertex_entries, vertex_properties,
};

verus! {

/// The graph as Neptune holds it.
#[derive(Debug, Clone, Copy)]
pub struct NeptuneGraph {}

/// A vertex read for the graph, its valid time still the JSON value it is
/// stored as.
#[derive(Debug)]
pub struct VertexFields {
    pub id: NodeId,
    pub entity_type: EntityType,
    pub label: String,
    pub properties: Properties,
    pub valid_time: JsonValue,
}

/// An edge read for the graph, without its temporal ranges.
#[derive(Debug)]
pub struct EdgeFields {
    pub id: EdgeId,
    pub source_id: NodeId,
    pub target_id: NodeId,
    pub label: String,
    pub properties: Properties,
}

/// Whether a range is refused: both ends given and the start after the end.
pub open spec fn range_refused(range: TemporalRange) -> bool {
    range.start matches Some(s) && range.end matches Some(e) && s.0 > e.0
}

/// The first value of a vertex property, as `Vertex::property` gives it.
pub open spec fn vertex_value(ps: Seq<(String, Vec<GremlinValue>)>, key: Seq<char>) -> Option<GremlinValue> {
    if exists|i: int| 0 <= i < ps.len() && ps[i].0@ == key && (forall|j: int| 0 <= j < i ==> ps[j].0@ != key) {
        let i = choose|i: int|
            0 <= i < ps.len() && ps[i].0@ == key && (forall|j: int| 0 <= j < i ==> ps[j].0@ != key);
        if ps[i].1@.len() > 0 {
            Some(ps[i].1@[0])
        } else {
            None
        }
    } else {
        None
    }
}

/// The value of an edge property, as `Edge::property` gives it.
pub open spec fn edge_value(ps: Seq<(String, GremlinValue)>, key: Seq<char>) -> Option<GremlinValue> {
    if exists|i: int| 0 <= i < ps.len() && ps[i].0@ == key && (forall|j: int| 0 <= j < i ==> ps[j].0@ != key) {
        let i = choose|i: int|
            0 <= i < ps.len() && ps[i].0@ == key && (forall|j: int| 0 <= j < i ==> ps[j].0@ != key);
        Some(ps[i].1)
    } else {
        None
    }
}

/// The text an identifier is read from, or `None` for an identifier that is
/// neither text nor an integer.
pub open spec fn neptune_gid_text(id: GremlinId) -> Option<Seq<char>> {
    match id {
        GremlinId::Other(_) => None,
        _ => Some(gid_text(id)),
    }
}

/// Whether an identifier reads: it is text or an integer, and its text is
/// an identifier.
pub open spec fn id_readable(id: GremlinId) -> bool {
    neptune_gid_text(id) matches Some(t) && uuid_parse(t) is Some
}

/// Whether `e` is the refusal of an identifier, with its message.
pub open spec fn id_refused_with(id: GremlinId, e: Error) -> bool {
    match neptune_gid_text(id) {
        None => e matches Error::Neptune(m) && m@ == "Unsupported GID format"@,
        Some(t) => uuid_parse(t) is None && (e matches Error::Uuid(m) && m@ == uuid_error_text(t)),
    }
}

/// The entity type a vertex's properties give it: by the text of its
/// `entity_type` property (seven names exactly, any other text as a custom
/// type), `Vertex` without one, and `None` when the property is not text.
pub open spec fn vertex_type(props: JsonModel) -> Option<EntityTypeModel> {
    match model_get(props, "entity_type"@) {
        None => Some(EntityTypeModel::Vertex),
        Some(JsonModel::Str(t)) => Some(
            if t == "Person"@ {
                EntityTypeModel::Person
            } else if t == "Organization"@ {
                EntityTypeModel::Organization
            } else if t == "Location"@ {
                EntityTypeModel::Location
            } else if t == "Event"@ {
                EntityTypeModel::Event
            } else if t == "Topic"@ {
                EntityTypeModel::Topic
            } else if t == "Document"@ {
                EntityTypeModel::Document
            } else if t == "Vertex"@ {
                EntityTypeModel::Vertex
            } else {
                EntityTypeModel::Custom(t)
            },
        ),
        Some(_) => None,
    }
}

/// The JSON model of a vertex's properties as Neptune reads them.
pub open spec fn vertex_props_model(v: GremlinVertex) -> JsonModel {
    JsonModel::Object(model_set_all(Seq::empty(), vertex_entries(v.properties@, false)))
}

impl NeptuneGraph {
    /// The graph's reader.
    pub fn new() -> (g: NeptuneGraph) {
        NeptuneGraph {}
    }

    /// Accepts a temporal range unless both its ends are given and the start
    /// lies after the end.
    pub fn validate_temporal_range(&self, range: &TemporalRange) -> (r: Result<(), Error>)
        ensures
            r is Ok <==> !range_refused(*range),
            r matches Err(e) ==> (e matches Error::InvalidTemporalRange(m) && m@
                == "Start time must be before end time"@),
    {
        if let (Some(start), Some(end)) = (range.start, range.end) {
            if start.0 > end.0 {
                return Err(Error::InvalidTemporalRange(String::from_str("Start time must be before end time")));
            }
        }
        Ok(())
    }

    /// The text of an identifier; refused for an identifier that is neither
    /// text nor an integer.
    pub fn gid_to_string(id: &GremlinId) -> (r: Result<String, Error>)
        ensures
            match neptune_gid_text(*id) {
                Some(t) => r matches Ok(s) && s@ == t,
                None => r matches Err(Error::Neptune(m)) && m@ == "Unsupported GID format"@,
            },
    {
        match id {
            GremlinId::Other(_) => Err(Error::Neptune(String::from_str("Unsupported GID format"))),
            _ => Ok(gid_to_string(id)),
        }
    }

    /// The JSON value of a property value, a map standing as an empty object.
    pub fn convert_gvalue_to_json(v: &GremlinValue) -> (r: JsonValue)
        ensures
            r@ == property_json(*v, false),
    {
        convert_value(v, false)
    }
}

/// Reads an identifier the way Neptune's reader does.
fn neptune_id(id: &GremlinId) -> (r: Result<u128, Error>)
    ensures
        match r {
            Ok(v) => neptune_gid_text(*id) matches Some(t) && uuid_parse(t) == Some(v),
            Err(e) => id_refused_with(*id, e),
        },
{
    match NeptuneGraph::gid_to_string(id) {
        Ok(_) => read_id(id),
        Err(e) => Err(e),
    }
}

/// The first value of a vertex property.
fn vertex_property<'a>(ps: &'a Vec<(String, Vec<GremlinValue>)>, key: &str) -> (r: Option<&'a GremlinValue>)
    ensures
        match r {
            Some(v) => vertex_value(ps@, key@) == Some(*v),
            None => vertex_value(ps@, key@) is None,
        },
{
    let k = String::from_str(key);
    let mut i: usize = 0;
    while i < ps.len()
        invariant
            0 <= i <= ps@.len(),
            k@ == key@,
            forall|j: int| 0 <= j < i ==> ps@[j].0@ != key@,
        decreases ps@.len() - i,
    {
        if ps[i].0 == k {
            proof {
                let c = choose|c: int|
                    0 <= c < ps@.len() && ps@[c].0@ == key@ && (forall|j: int| 0 <= j < c ==> ps@[j].0@ != key@);
                if c < i {
                    assert(ps@[c].0@ != key@);
                }
                if i < c {
                    assert(ps@[i as int].0@ != key@);
                }
            }
            if ps[i].1.len() > 0 {
                return Some(&ps[i].1[0]);
            } else {
                return None;
            }
        }
        i = i + 1;
    }
    None
}

/// The value of an edge property.
fn edge_property<'a>(ps: &'a Vec<(String, GremlinValue)>, key: &str) -> (r: Option<&'a GremlinValue>)
    ensures
        match r {
            Some(v) => edge_value(ps@, key@) == Some(*v),
            None => edge_value(ps@, key@) is None,
        },
{
    let k = String::from_str(key);
    let mut i: usize = 0;
    while i < ps.len()
        invariant
            0 <= i <= ps@.len(),
            k@ == key@,
            forall|j: int| 0 <= j < i ==> ps@[j].0@ != key@,
        decreases ps@.len() - i,
    {
        if ps[i].0 == k {
            proof {
                let c = choose|c: int|
                    0 <= c < ps@.len() && ps@[c].0@ == key@ && (forall|j: int| 0 <= j < c ==> ps@[j].0@ != key@);
                if c < i {
                    assert(ps@[c].0@ != key@);
                }
                if i < c {
                    assert(ps@[i as int].0@ != key@);
                }
            }
            return Some(&ps[i].1);
        }
        i = i + 1;
    }
    None
}

/// The entity type of a vertex from its properties (as an object).
fn type_from_properties(props: &JsonValue) -> (r: Result<EntityType, Error>)
    ensures
        match vertex_type(props@) {
            Some(t) => r matches Ok(x) && x@ == t,
            None => r matches Err(Error::Neptune(m)) && m@ == "Invalid entity_type format"@,
        },
{
    match get_member(props, "entity_type") {
        None => Ok(EntityType::Vertex),
        Some(v) => match as_str(v) {
            None => Err(Error::Neptune(String::from_str("Invalid entity_type format"))),
            Some(t) => {
                let s = String::from_str(t);
                if s == String::from_str("Person") {
                    Ok(EntityType::Person)
                } else if s == String::from_str("Organization") {
                    Ok(EntityType::Organization)
                } else if s == String::from_str("Location") {
                    Ok(EntityType::Location)
                } else if s == String::from_str("Event") {
                    Ok(EntityType::Event)
                } else if s == String::from_str("Topic") {
                    Ok(EntityType::Topic)
                } else if s == String::from_str("Document") {
                    Ok(EntityType::Document)
                } else if s == String::from_str("Vertex") {
                    Ok(EntityType::Vertex)
                } else {
                    Ok(EntityType::Custom(s))
                }
            },
        },
    }
}

/// The refusal of a vertex, if any: its identifier first, then a type that
/// is not text, then a missing valid time.
pub open spec fn vertex_refused_with(v: GremlinVertex, e: Error) -> bool {
    if !id_readable(v.id) {
        id_refused_with(v.id, e)
    } else if vertex_type(vertex_props_model(v)) is None {
        e matches Error::Neptune(m) && m@ == "Invalid entity_type format"@
    } else {
        vertex_value(v.properties@, "valid_time"@) is None && (e matches Error::Neptune(m) && m@
            == "Missing valid_time property"@)
    }
}

/// Whether `f` is what a vertex reads as.
pub open spec fn vertex_fields(v: GremlinVertex, f: VertexFields) -> bool {
    &&& neptune_gid_text(v.id) matches Some(t) && uuid_parse(t) == Some(f.id.0)
    &&& JsonModel::Object(members_model(f.properties.0@)) == vertex_props_model(v)
    &&& vertex_type(vertex_props_model(v)) == Some(f.entity_type@)
    &&& f.label@ == v.label@
    &&& vertex_value(v.properties@, "valid_time"@) matches Some(x) && f.valid_time@ == property_json(x, false)
}

/// Whether `f` is what an edge reads as.
pub open spec fn edge_fields(g: GremlinEdge, f: EdgeFields) -> bool {
    &&& neptune_gid_text(g.id) matches Some(t) && uuid_parse(t) == Some(f.id.0)
    &&& neptune_gid_text(g.out_v) matches Some(t) && uuid_parse(t) == Some(f.source_id.0)
    &&& neptune_gid_text(g.in_v) matches Some(t) && uuid_parse(t) == Some(f.target_id.0)
    &&& f.label@ == g.label@
    &&& members_model(f.properties.0@) == model_set_all(Seq::empty(), property_entries(g.properties@, false))
}

/// The refusal of an edge, if any: the edge's identifier, then the texts of
/// its source's and target's identifiers, then those texts as identifiers.
pub open spec fn edge_refused_with(g: GremlinEdge, e: Error) -> bool {
    if !id_readable(g.id) {
        id_refused_with(g.id, e)
    } else if neptune_gid_text(g.out_v) is None {
        e matches Error::Neptune(m) && m@ == "Unsupported GID format"@
    } else if neptune_gid_text(g.in_v) is None {
        e matches Error::Neptune(m) && m@ == "Unsupported GID format"@
    } else if !id_readable(g.out_v) {
        id_refused_with(g.out_v, e)
    } else {
        !id_readable(g.in_v) && id_refused_with(g.in_v, e)
    }
}

impl NeptuneGraph {
    /// Reads a vertex for the graph: its identifier, its properties (each
    /// key's first value), its entity type (from its `entity_type`
    /// property), its label, and its stored valid time.
    pub fn parse_vertex(&self, v: &GremlinVertex) -> (r: Result<VertexFields, Error>)
        ensures
            match r {
                Ok(f) => id_readable(v.id) && vertex_fields(*v, f),
                Err(e) => vertex_refused_with(*v, e),
            },
    {
        let id = match neptune_id(&v.id) {
            Ok(x) => x,
            Err(e) => {
                return Err(e);
            },
        };
        let props = vertex_properties(&v.properties, false);
        let obj = JsonValue::Object(props.0);
        let entity_type = match type_from_properties(&obj) {
            Ok(t) => t,
            Err(e) => {
                return Err(e);
            },
        };
        let valid_time = match vertex_property(&v.properties, "valid_time") {
            Some(x) => NeptuneGraph::convert_gvalue_to_json(x),
            None => {
                return Err(Error::Neptune(String::from_str("Missing valid_time property")));
            },
        };
        let properties = match obj {
            JsonValue::Object(m) => Properties(m),
            _ => Properties::new(),
        };
        Ok(VertexFields { id: NodeId(id), entity_type, label: v.label.clone(), properties, valid_time })
    }

    /// The stored transaction time of a vertex; refused when it has none.
    pub fn vertex_transaction_time(v: &GremlinVertex) -> (r: Result<JsonValue, Error>)
        ensures
            match vertex_value(v.properties@, "transaction_time"@) {
                Some(x) => r matches Ok(j) && j@ == property_json(x, false),
                None => r matches Err(Error::Neptune(m)) && m@ == "Missing transaction_time property"@,
            },
    {
        match vertex_property(&v.properties, "transaction_time") {
            Some(x) => Ok(NeptuneGraph::convert_gvalue_to_json(x)),
            None => Err(Error::Neptune(String::from_str("Missing transaction_time property"))),
        }
    }

    /// Reads an edge for the graph: its identifier, source, target, label
    /// and properties.
    pub fn parse_edge(&self, g: &GremlinEdge) -> (r: Result<EdgeFields, Error>)
        ensures
            match r {
                Ok(f) => edge_fields(*g, f),
                Err(e) => edge_refused_with(*g, e),
            },
    {
        let id = match neptune_id(&g.id) {
            Ok(x) => x,
            Err(e) => {
                return Err(e);
            },
        };
        match NeptuneGraph::gid_to_string(&g.out_v) {
            Ok(_) => {},
            Err(e) => {
                return Err(e);
            },
        }
        match NeptuneGraph::gid_to_string(&g.in_v) {
            Ok(_) => {},
            Err(e) => {
                return Err(e);
            },
        }
        let source = match neptune_id(&g.out_v) {
            Ok(x) => x,
            Err(e) => {
                return Err(e);
            },
        };
        let target = match neptune_id(&g.in_v) {
            Ok(x) => x,
            Err(e) => {
                return Err(e);
            },
        };
        let properties = edge_properties(&g.properties, false);
        Ok(
            EdgeFields {
                id: EdgeId(id),
                source_id: NodeId(source),
                target_id: NodeId(target),
                label: g.label.clone(),
                properties,
            },
        )
    }

    /// The text of a stored temporal range of an edge (`key` is
    /// `valid_time` or `transaction_time`): `None` when the edge has no such
    /// property, refused with `invalid` when it is not text.
    pub fn edge_time_text(g: &GremlinEdge, key: &str, invalid: &str) -> (r: Result<Option<String>, Error>)
        ensures
            match edge_value(g.properties@, key@) {
                None => r matches Ok(None),
                Some(x) => match property_json(x, false) {
                    JsonModel::Str(t) => r matches Ok(Some(s)) && s@ == t,
                    _ => r matches Err(Error::Neptune(m)) && m@ == invalid@,
                },
            },
    {
        match edge_property(&g.properties, key) {
            None => Ok(None),
            Some(x) => {
                let j = NeptuneGraph::convert_gvalue_to_json(x);
                match j {
                    JsonValue::Str(s) => Ok(Some(s)),
                    _ => Err(Error::Neptune(String::from_str(invalid))),
                }
            },
        }
    }
}

/// How many times a query is attempted.
pub const MAX_ATTEMPTS: u32 = 3;

/// What the retrying query runner does next.
#[derive(Debug)]
pub enum RetryAction {
    /// Send the query (again).
    Attempt,
    /// Wait this many nanoseconds.
    Sleep(u64),
    /// Give up with this error.
    Fail(Error),
}

/// The progress of a retried query: how many attempts have been made.
#[derive(Debug, Clone, Copy)]
pub struct RetryState {
    pub attempts: u32,
}

impl RetryState {
    /// No attempt made yet.
    pub fn new() -> (s: RetryState)
        ensures
            s.attempts == 0,
    {
        RetryState { attempts: 0 }
    }

    /// The next step before an attempt: another attempt while fewer than
    /// `MAX_ATTEMPTS` have been made, otherwise giving up.
    pub fn next(&self) -> (a: RetryAction)
        ensures
            self.attempts < MAX_ATTEMPTS ==> a is Attempt,
            self.attempts >= MAX_ATTEMPTS ==> (a matches RetryAction::Fail(Error::Neptune(m)) && m@
                == "Maximum number of retries reached"@),
    {
        if self.attempts < MAX_ATTEMPTS {
            RetryAction::Attempt
        } else {
            RetryAction::Fail(Error::Neptune(String::from_str("Maximum number of retries reached")))
        }
    }

    /// After a failed attempt whose error reads `error_text`, given the delay
    /// the backoff policy proposes (`None` once it gives up): the attempt is
    /// counted and the runner waits, or gives up when there is no delay.
    pub fn on_failure(&self, error_text: &str, delay: Option<u64>) -> (r: (RetryState, RetryAction))
        requires
            self.attempts < MAX_ATTEMPTS,
        ensures
            r.0.attempts == self.attempts + 1,
            match delay {
                Some(d) => r.1 matches RetryAction::Sleep(x) && x == d,
                None => r.1 matches RetryAction::Fail(Error::Neptune(m)) && m@
                    == "Query execution failed after retries: "@ + error_text@,
            },
    {
        let next = RetryState { attempts: self.attempts + 1 };
        match delay {
            Some(d) => (next, RetryAction::Sleep(d)),
            None => (next, RetryAction::Fail(Error::Neptune(concat2("Query execution failed after retries: ", error_text)))),
        }
    }
}

} // verus!
