//! Gremlin query texts for nodes and edges.

use vstd::prelude::*;
use crate::text::{int_text, concat2, concat3, push_int};
use crate::time::{spec_unix_seconds, unix_seconds};
use crate::types::{
    Node, Edge, NodeId, EdgeId, TemporalRange, entity_type_text, uuid_text, uuid_to_string, hex_char,
};

verus! {

/// How `serde_json` writes one character inside a JSON string: a quote and a
/// backslash behind a backslash; backspace, tab, line feed, form feed and
/// carriage return as `\b`, `\t`, `\n`, `\f`, `\r`; any other character below
/// U+0020 as `\u00` and two lower-case hexadecimal digits; every other
/// character as itself.
pub open spec fn json_escaped_char(c: char) -> Seq<char> {
    if c == '"' {
        seq!['\\', '"']
    } else if c == '\\' {
        seq!['\\', '\\']
    } else if c == '\u{8}' {
        seq!['\\', 'b']
    } else if c == '\t' {
        seq!['\\', 't']
    } else if c == '\n' {
        seq!['\\', 'n']
    } else if c == '\u{c}' {
        seq!['\\', 'f']
    } else if c == '\r' {
        seq!['\\', 'r']
    } else if (c as int) < 0x20 {
        seq!['\\', 'u', '0', '0', hex_char((c as int) / 16), hex_char((c as int) % 16)]
    } else {
        seq![c]
    }
}

/// The characters of a text, each written as inside a JSON string.
pub open spec fn json_escaped(s: Seq<char>) -> Seq<char>
    decreases s.len(),
{
    if s.len() == 0 {
        Seq::empty()
    } else {
        json_escaped(s.drop_last()) + json_escaped_char(s.last())
    }
}

/// The JSON text of a string value, as `serde_json` writes it: the escaped
/// text between double quotes.
pub open spec fn json_quoted(s: Seq<char>) -> Seq<char> {
    seq!['"'] + json_escaped(s) + seq!['"']
}

/// Writes a string as a JSON value through `serde_json::Value::String` and its
/// `Display` (the compact serializer's `format_escaped_str`): the text in
/// double quotes, escaped as `json_quoted` states.
#[verifier::external_body]
fn quote_json(s: &str) -> (r: String)
    ensures
        r@ == json_quoted(s@),
{
    serde_json::Value::String(s.to_string()).to_string()
}

/// One `.property('key', value)` step.
pub open spec fn property_step(key: Seq<char>, value: Seq<char>) -> Seq<char> {
    ".property('"@ + key + "', "@ + value + ")"@
}

/// The property steps of members (key, value text), in order.
pub open spec fn property_steps(ms: Seq<(Seq<char>, Seq<char>)>) -> Seq<char>
    decreases ms.len(),
{
    if ms.len() == 0 {
        Seq::empty()
    } else {
        property_steps(ms.drop_last()) + property_step(ms.last().0, ms.last().1)
    }
}

/// The texts of a list of (key, value text) pairs.
pub open spec fn pair_texts(v: Seq<(String, String)>) -> Seq<(Seq<char>, Seq<char>)> {
    v.map_values(|p: (String, String)| (p.0@, p.1@))
}

/// Appends the property steps of `members` to `out`.
pub fn push_property_steps(out: &mut String, members: &Vec<(String, String)>)
    ensures
        final(out)@ == old(out)@ + property_steps(pair_texts(members@)),
{
    let mut i: usize = 0;
    while i < members.len()
        invariant
            0 <= i <= members@.len(),
            out@ == old(out)@ + property_steps(pair_texts(members@.subrange(0, i as int))),
        decreases members@.len() - i,
    {
        proof {
            let a = pair_texts(members@.subrange(0, i as int));
            let b = pair_texts(members@.subrange(0, i + 1));
            assert(b.drop_last() =~= a);
            assert(b.last() == (members@[i as int].0@, members@[i as int].1@));
        }
        out.append(".property('");
        out.append(members[i].0.as_str());
        out.append("', ");
        out.append(members[i].1.as_str());
        out.append(")");
        i = i + 1;
    }
    assert(members@.subrange(0, members@.len() as int) =~= members@);
}

/// The value texts of a node's identity: entity type, identifier and label.
pub open spec fn node_identity(node: Node) -> Seq<(Seq<char>, Seq<char>)> {
    seq![
        ("entity_type"@, json_quoted(entity_type_text(node.entity_type@))),
        ("id"@, json_quoted(uuid_text(node.id.0))),
        ("label"@, json_quoted(node.label@)),
    ]
}

/// The query that creates `node`, given the JSON texts of its properties, its
/// valid time and its transaction time.  Its properties are set in the order
/// of their names.
pub open spec fn create_node_text(
    node: Node,
    properties: Seq<char>,
    valid_time: Seq<char>,
    transaction_time: Seq<char>,
) -> Seq<char> {
    "g.addV('"@ + entity_type_text(node.entity_type@) + "')"@ + property_steps(
        node_identity(node) + seq![
            ("properties"@, properties),
            ("transaction_time"@, transaction_time),
            ("valid_time"@, valid_time),
        ],
    )
}

/// A (key, value text) pair.
fn pair(k: &str, v: String) -> (p: (String, String))
    ensures
        p.0@ == k@,
        p.1@ == v@,
{
    (String::from_str(k), v)
}

/// The Gremlin query that creates `node`, given the JSON texts of its
/// properties, valid time and transaction time.
pub fn create_node(node: &Node, properties: &str, valid_time: &str, transaction_time: &str) -> (q: String)
    ensures
        q@ == create_node_text(*node, properties@, valid_time@, transaction_time@),
{
    let et = node.entity_type.to_string();
    let id = uuid_to_string(node.id.0);
    let members = vec![
        pair("entity_type", quote_json(et.as_str())),
        pair("id", quote_json(id.as_str())),
        pair("label", quote_json(node.label.as_str())),
        pair("properties", String::from_str(properties)),
        pair("transaction_time", String::from_str(transaction_time)),
        pair("valid_time", String::from_str(valid_time)),
    ];
    let mut q = concat3("g.addV('", et.as_str(), "')");
    push_property_steps(&mut q, &members);
    assert(pair_texts(members@) =~= node_identity(*node) + seq![
        ("properties"@, properties@),
        ("transaction_time"@, transaction_time@),
        ("valid_time"@, valid_time@),
    ]);
    q
}

/// The query that updates `node`, given the JSON texts of its properties,
/// valid time and transaction time.
pub open spec fn update_node_text(
    node: Node,
    properties: Seq<char>,
    valid_time: Seq<char>,
    transaction_time: Seq<char>,
) -> Seq<char> {
    "g.V('"@ + uuid_text(node.id.0) + "')"@ + property_steps(
        seq![
            ("label"@, json_quoted(node.label@)),
            ("properties"@, properties),
            ("transaction_time"@, transaction_time),
            ("valid_time"@, valid_time),
        ],
    )
}

/// The Gremlin query that updates `node`.
pub fn update_node(node: &Node, properties: &str, valid_time: &str, transaction_time: &str) -> (q: String)
    ensures
        q@ == update_node_text(*node, properties@, valid_time@, transaction_time@),
{
    let members = vec![
        pair("label", quote_json(node.label.as_str())),
        pair("properties", String::from_str(properties)),
        pair("transaction_time", String::from_str(transaction_time)),
        pair("valid_time", String::from_str(valid_time)),
    ];
    let id = uuid_to_string(node.id.0);
    let mut q = concat3("g.V('", id.as_str(), "')");
    push_property_steps(&mut q, &members);
    assert(pair_texts(members@) =~= seq![
        ("label"@, json_quoted(node.label@)),
        ("properties"@, properties@),
        ("transaction_time"@, transaction_time@),
        ("valid_time"@, valid_time@),
    ]);
    q
}

/// The query that creates `edge` from its source to its target.
pub open spec fn create_edge_text(
    edge: Edge,
    properties: Seq<char>,
    valid_time: Seq<char>,
    transaction_time: Seq<char>,
) -> Seq<char> {
    "g.V('"@ + uuid_text(edge.source_id.0) + "').addE('"@ + edge.label@ + "').to(V('"@ + uuid_text(
        edge.target_id.0,
    ) + "'))"@ + property_steps(
        seq![
            ("id"@, json_quoted(uuid_text(edge.id.0))),
            ("properties"@, properties),
            ("transaction_time"@, transaction_time),
            ("valid_time"@, valid_time),
        ],
    )
}

/// The Gremlin query that creates `edge`.
pub fn create_edge(edge: &Edge, properties: &str, valid_time: &str, transaction_time: &str) -> (q: String)
    ensures
        q@ == create_edge_text(*edge, properties@, valid_time@, transaction_time@),
{
    let id = uuid_to_string(edge.id.0);
    let members = vec![
        pair("id", quote_json(id.as_str())),
        pair("properties", String::from_str(properties)),
        pair("transaction_time", String::from_str(transaction_time)),
        pair("valid_time", String::from_str(valid_time)),
    ];
    let source = uuid_to_string(edge.source_id.0);
    let target = uuid_to_string(edge.target_id.0);
    let mut q = concat3("g.V('", source.as_str(), "').addE('");
    q.append(edge.label.as_str());
    q.append("').to(V('");
    q.append(target.as_str());
    q.append("'))");
    push_property_steps(&mut q, &members);
    assert(pair_texts(members@) =~= seq![
        ("id"@, json_quoted(uuid_text(edge.id.0))),
        ("properties"@, properties@),
        ("transaction_time"@, transaction_time@),
        ("valid_time"@, valid_time@),
    ]);
    q
}

/// The query that updates `edge`.
pub open spec fn update_edge_text(
    edge: Edge,
    properties: Seq<char>,
    valid_time: Seq<char>,
    transaction_time: Seq<char>,
) -> Seq<char> {
    "g.E('"@ + uuid_text(edge.id.0) + "')"@ + property_steps(
        seq![
            ("properties"@, properties),
            ("transaction_time"@, transaction_time),
            ("valid_time"@, valid_time),
        ],
    )
}

/// The Gremlin query that updates `edge`.
pub fn update_edge(edge: &Edge, properties: &str, valid_time: &str, transaction_time: &str) -> (q: String)
    ensures
        q@ == update_edge_text(*edge, properties@, valid_time@, transaction_time@),
{
    let members = vec![
        pair("properties", String::from_str(properties)),
        pair("transaction_time", String::from_str(transaction_time)),
        pair("valid_time", String::from_str(valid_time)),
    ];
    let id = uuid_to_string(edge.id.0);
    let mut q = concat3("g.E('", id.as_str(), "')");
    push_property_steps(&mut q, &members);
    assert(pair_texts(members@) =~= seq![
        ("properties"@, properties@),
        ("transaction_time"@, transaction_time@),
        ("valid_time"@, valid_time@),
    ]);
    q
}

/// `a`, the text of identifier `id`, then `b`.
fn around_id(a: &str, id: u128, b: &str) -> (q: String)
    ensures
        q@ == a@ + uuid_text(id) + b@,
{
    let t = uuid_to_string(id);
    concat3(a, t.as_str(), b)
}

/// The query that reads a node.
pub fn get_node(id: NodeId) -> (q: String)
    ensures
        q@ == "g.V('"@ + uuid_text(id.0) + "').hasLabel('node')"@,
{
    around_id("g.V('", id.0, "').hasLabel('node')")
}

/// The query that deletes a node.
pub fn delete_node(id: NodeId) -> (q: String)
    ensures
        q@ == "g.V('"@ + uuid_text(id.0) + "').drop()"@,
{
    around_id("g.V('", id.0, "').drop()")
}

/// The query that reads an edge.
pub fn get_edge(id: EdgeId) -> (q: String)
    ensures
        q@ == "g.E('"@ + uuid_text(id.0) + "').hasLabel('edge')"@,
{
    around_id("g.E('", id.0, "').hasLabel('edge')")
}

/// The query that deletes an edge.
pub fn delete_edge(id: EdgeId) -> (q: String)
    ensures
        q@ == "g.E('"@ + uuid_text(id.0) + "').drop()"@,
{
    around_id("g.E('", id.0, "').drop()")
}

/// The valid-time steps of a temporal filter: a lower bound on the start and
/// an upper bound on the end, each where the range has it, in whole seconds.
pub open spec fn temporal_steps(range: Option<TemporalRange>) -> Seq<char> {
    match range {
        None => Seq::empty(),
        Some(r) => start_step(r) + end_step(r),
    }
}

/// The lower bound on the valid-time start, if the range has a start.
pub open spec fn start_step(r: TemporalRange) -> Seq<char> {
    match r.start {
        Some(s) => ".has('valid_time.start', gte("@ + int_text(spec_unix_seconds(s.0 as int)) + "))"@,
        None => Seq::empty(),
    }
}

/// The upper bound on the valid-time end, if the range has an end.
pub open spec fn end_step(r: TemporalRange) -> Seq<char> {
    match r.end {
        Some(e) => ".has('valid_time.end', lte("@ + int_text(spec_unix_seconds(e.0 as int)) + "))"@,
        None => Seq::empty(),
    }
}

/// Appends the temporal filter steps of `range` to `q`.
fn push_temporal_steps(q: &mut String, range: &Option<TemporalRange>)
    ensures
        final(q)@ == old(q)@ + temporal_steps(*range),
{
    match range {
        None => {},
        Some(r) => {
            let ghost before = q@;
            match &r.start {
                Some(s) => {
                    q.append(".has('valid_time.start', gte(");
                    push_int(q, unix_seconds(s.0));
                    q.append("))");
                },
                None => {},
            }
            let ghost mid = q@;
            match &r.end {
                Some(e) => {
                    q.append(".has('valid_time.end', lte(");
                    push_int(q, unix_seconds(e.0));
                    q.append("))");
                },
                None => {},
            }
            assert(q@ =~= before + temporal_steps(*range));
        },
    }
}

/// The query for the edges of a node, optionally limited in valid time.
pub fn get_edges_for_node(node_id: NodeId, temporal_range: Option<TemporalRange>) -> (q: String)
    ensures
        q@ == "g.V('"@ + uuid_text(node_id.0) + "').bothE()"@ + temporal_steps(temporal_range),
{
    let mut q = around_id("g.V('", node_id.0, "').bothE()");
    push_temporal_steps(&mut q, &temporal_range);
    q
}

/// The query for the neighbours of a node, optionally limited in valid time.
pub fn get_connected_nodes(node_id: NodeId, temporal_range: Option<TemporalRange>) -> (q: String)
    ensures
        q@ == "g.V('"@ + uuid_text(node_id.0) + "').both()"@ + temporal_steps(temporal_range),
{
    let mut q = around_id("g.V('", node_id.0, "').both()");
    push_temporal_steps(&mut q, &temporal_range);
    q
}

/// The query for the nodes with a label.
pub fn get_nodes_by_label(label: &str) -> (q: String)
    ensures
        q@ == "g.V().hasLabel('"@ + label@ + "')"@,
{
    concat3("g.V().hasLabel('", label, "')")
}

/// The query for the edges with a label.
pub fn get_edges_by_label(label: &str) -> (q: String)
    ensures
        q@ == "g.E().hasLabel('"@ + label@ + "')"@,
{
    concat3("g.E().hasLabel('", label, "')")
}

/// The query for the edges from one node to another.
pub fn get_edges_between(from: &NodeId, to: &NodeId) -> (q: String)
    ensures
        q@ == "g.V('"@ + uuid_text(from.0) + "').outE().where(inV().hasId('"@ + uuid_text(to.0)
            + "'))"@,
{
    let mut q = around_id("g.V('", from.0, "').outE().where(inV().hasId('");
    let t = uuid_to_string(to.0);
    q.append(t.as_str());
    q.append("'))");
    q
}

/// The query for the edges leaving a node.
pub fn get_edges_from(from: &NodeId) -> (q: String)
    ensures
        q@ == "g.V('"@ + uuid_text(from.0) + "').outE()"@,
{
    around_id("g.V('", from.0, "').outE()")
}

/// The query for the edges entering a node.
pub fn get_edges_to(to: &NodeId) -> (q: String)
    ensures
        q@ == "g.V('"@ + uuid_text(to.0) + "').inE()"@,
{
    around_id("g.V('", to.0, "').inE()")
}

/// The query for a vertex by identifier.
pub fn get_vertex(id: &str) -> (q: String)
    ensures
        q@ == "g.V('"@ + id@ + "')"@,
{
    concat3("g.V('", id, "')")
}

} // verus!
