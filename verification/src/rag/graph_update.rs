//! Turning extracted entities and detected relationships into the nodes and
//! edges the knowledge graph stores.

use vstd::prelude::*;
use crate::text::concat3;
use crate::time::DateTimeUtc;
use crate::types::{
    Edge, EdgeId, EntityType, Node, NodeId, Properties, TemporalRange, Timestamp, entity_type_text,
    new_uuid,
};

verus! {

/// An entity found in a text: its words, its type and where it stands
/// (character offsets, the end exclusive).
#[derive(Debug)]
pub struct EntityMention {
    pub text: String,
    pub entity_type: EntityType,
    pub start_pos: usize,
    pub end_pos: usize,
}

/// A relationship found between two entities of a text, with whether its
/// confidence reached the threshold the graph accepts.
#[derive(Debug)]
pub struct RelationshipMention {
    pub source: EntityMention,
    pub target: EntityMention,
    pub relationship_type: String,
    pub confident: bool,
}

/// What an update stores: a node per entity, then an edge per accepted
/// relationship.
#[derive(Debug)]
pub struct GraphUpdate {
    pub nodes: Vec<Node>,
    pub edges: Vec<Edge>,
}

/// The key under which an entity's node is found: its words, `:` and its
/// type's name.
pub open spec fn mention_key(m: EntityMention) -> Seq<char> {
    m.text@ + ":"@ + entity_type_text(m.entity_type@)
}

/// The node of the last entity with key `key`, where `nodes[i]` is the node
/// of `ms[i]`.
pub open spec fn node_for_key(ms: Seq<EntityMention>, nodes: Seq<Node>, key: Seq<char>) -> Option<NodeId>
    decreases ms.len(),
{
    if ms.len() == 0 {
        None
    } else if mention_key(ms.last()) == key {
        Some(nodes[ms.len() - 1].id)
    } else {
        node_for_key(ms.drop_last(), nodes, key)
    }
}

/// The (source, target, label) of the edges of the relationships that are
/// confident and whose two entities have nodes, in order.
pub open spec fn planned_edges(ms: Seq<EntityMention>, nodes: Seq<Node>, rels: Seq<RelationshipMention>) -> Seq<
    (NodeId, NodeId, Seq<char>),
>
    decreases rels.len(),
{
    if rels.len() == 0 {
        Seq::empty()
    } else {
        let rest = planned_edges(ms, nodes, rels.drop_last());
        let r = rels.last();
        match (node_for_key(ms, nodes, mention_key(r.source)), node_for_key(ms, nodes, mention_key(r.target))) {
            (Some(s), Some(t)) => if r.confident {
                rest.push((s, t, r.relationship_type@))
            } else {
                rest
            },
            _ => rest,
        }
    }
}

/// The range that starts at `now` and does not end.
pub open spec fn open_from(now: DateTimeUtc) -> TemporalRange {
    TemporalRange { start: Some(Timestamp(now)), end: None }
}

/// The last entity at position `i` with a key is the one the key finds.
proof fn lemma_node_for_key_at(ms: Seq<EntityMention>, nodes: Seq<Node>, key: Seq<char>, i: int)
    requires
        0 <= i < ms.len(),
        mention_key(ms[i]) == key,
        forall|j: int| i < j < ms.len() ==> mention_key(#[trigger] ms[j]) != key,
    ensures
        node_for_key(ms, nodes, key) == Some(nodes[i].id),
    decreases ms.len(),
{
    if i < ms.len() - 1 {
        let d = ms.drop_last();
        assert forall|j: int| i < j < d.len() implies mention_key(#[trigger] d[j]) != key by {
            assert(d[j] == ms[j]);
        }
        assert(d[i] == ms[i]);
        lemma_node_for_key_at(d, nodes, key, i);
    }
}

/// A key no entity has finds no node.
proof fn lemma_node_for_key_none(ms: Seq<EntityMention>, nodes: Seq<Node>, key: Seq<char>)
    requires
        forall|j: int| 0 <= j < ms.len() ==> mention_key(#[trigger] ms[j]) != key,
    ensures
        node_for_key(ms, nodes, key) is None,
    decreases ms.len(),
{
    if ms.len() > 0 {
        let d = ms.drop_last();
        assert forall|j: int| 0 <= j < d.len() implies mention_key(#[trigger] d[j]) != key by {
            assert(d[j] == ms[j]);
        }
        lemma_node_for_key_none(d, nodes, key);
    }
}

/// A key finds the node of one of the entities.
proof fn lemma_node_for_key_found(ms: Seq<EntityMention>, nodes: Seq<Node>, key: Seq<char>)
    requires
        node_for_key(ms, nodes, key) is Some,
    ensures
        exists|j: int| 0 <= j < ms.len() && node_for_key(ms, nodes, key) == Some(#[trigger] nodes[j].id),
    decreases ms.len(),
{
    if mention_key(ms.last()) != key {
        lemma_node_for_key_found(ms.drop_last(), nodes, key);
        let j = choose|j: int| 0 <= j < ms.drop_last().len() && node_for_key(ms.drop_last(), nodes, key) == Some(
            #[trigger] nodes[j].id,
        );
        assert(0 <= j < ms.len());
    } else {
        assert(node_for_key(ms, nodes, key) == Some(nodes[ms.len() - 1].id));
    }
}

/// An update's edges join its own nodes: both ends of every planned edge
/// are nodes planned for the entities.
pub proof fn lemma_edges_join_planned_nodes(ms: Seq<EntityMention>, nodes: Seq<Node>, rels: Seq<RelationshipMention>)
    ensures
        forall|i: int|
            0 <= i < planned_edges(ms, nodes, rels).len() ==> {
                &&& exists|j: int| 0 <= j < ms.len() && (#[trigger] planned_edges(ms, nodes, rels)[i]).0 == nodes[j].id
                &&& exists|k: int| 0 <= k < ms.len() && planned_edges(ms, nodes, rels)[i].1 == nodes[k].id
            },
    decreases rels.len(),
{
    if rels.len() > 0 {
        lemma_edges_join_planned_nodes(ms, nodes, rels.drop_last());
        let r = rels.last();
        let s = node_for_key(ms, nodes, mention_key(r.source));
        let t = node_for_key(ms, nodes, mention_key(r.target));
        if s is Some {
            lemma_node_for_key_found(ms, nodes, mention_key(r.source));
        }
        if t is Some {
            lemma_node_for_key_found(ms, nodes, mention_key(r.target));
        }
        let rest = planned_edges(ms, nodes, rels.drop_last());
        let all = planned_edges(ms, nodes, rels);
        assert forall|i: int| 0 <= i < all.len() implies {
            &&& exists|j: int| 0 <= j < ms.len() && (#[trigger] all[i]).0 == nodes[j].id
            &&& exists|k: int| 0 <= k < ms.len() && all[i].1 == nodes[k].id
        } by {
            if i < rest.len() {
                assert(all[i] == rest[i]);
                assert(rest[i] == planned_edges(ms, nodes, rels.drop_last())[i]);
            }
        }
    }
}

/// The key of an entity.
fn key_of(m: &EntityMention) -> (k: String)
    ensures
        k@ == mention_key(*m),
{
    let t = m.entity_type.to_string();
    concat3(m.text.as_str(), ":", t.as_str())
}

/// The node found under `key`: that of the last entity with the key.
fn find_node(keys: &Vec<String>, nodes: &Vec<Node>, key: &String, Ghost(ms): Ghost<Seq<EntityMention>>) -> (r:
    Option<NodeId>)
    requires
        keys@.len() == ms.len(),
        nodes@.len() == ms.len(),
        forall|j: int| 0 <= j < ms.len() ==> #[trigger] keys@[j]@ == mention_key(ms[j]),
    ensures
        r == node_for_key(ms, nodes@, key@),
{
    let mut i: usize = keys.len();
    while i > 0
        invariant
            0 <= i <= keys@.len(),
            keys@.len() == ms.len(),
            nodes@.len() == ms.len(),
            forall|j: int| 0 <= j < ms.len() ==> #[trigger] keys@[j]@ == mention_key(ms[j]),
            forall|j: int| i <= j < ms.len() ==> mention_key(#[trigger] ms[j]) != key@,
        decreases i,
    {
        i = i - 1;
        if keys[i] == *key {
            proof {
                assert(keys@[i as int]@ == mention_key(ms[i as int]));
                lemma_node_for_key_at(ms, nodes@, key@, i as int);
            }
            return Some(nodes[i].id);
        }
        proof {
            assert(keys@[i as int]@ == mention_key(ms[i as int]));
        }
    }
    proof {
        lemma_node_for_key_none(ms, nodes@, key@);
    }
    None
}

/// The nodes and edges that record what a text said, at `now`: a node with
/// a fresh identifier for each entity (labelled with its words), and for
/// each confident relationship whose two entities have nodes an edge with a
/// fresh identifier between them (labelled with the relationship's type).
/// An entity's node is found by its words and type; where several entities
/// share both, the last one's node is used.  Everything is valid and
/// recorded from `now` on.
pub fn plan_graph_update(
    entities: &Vec<EntityMention>,
    relationships: &Vec<RelationshipMention>,
    now: DateTimeUtc,
) -> (u: GraphUpdate)
    ensures
        u.nodes@.len() == entities@.len(),
        forall|i: int|
            0 <= i < entities@.len() ==> {
                &&& (#[trigger] u.nodes@[i]).entity_type == entities@[i].entity_type
                &&& u.nodes@[i].label@ == entities@[i].text@
                &&& u.nodes@[i].properties.0@.len() == 0
                &&& u.nodes@[i].valid_time == open_from(now)
                &&& u.nodes@[i].transaction_time == open_from(now)
            },
        u.edges@.len() == planned_edges(entities@, u.nodes@, relationships@).len(),
        forall|i: int|
            0 <= i < u.edges@.len() ==> {
                let p = planned_edges(entities@, u.nodes@, relationships@)[i];
                &&& (#[trigger] u.edges@[i]).source_id == p.0
                &&& u.edges@[i].target_id == p.1
                &&& u.edges@[i].label@ == p.2
                &&& u.edges@[i].properties.0@.len() == 0
                &&& u.edges@[i].valid_time == open_from(now)
                &&& u.edges@[i].transaction_time == open_from(now)
            },
{
    let valid_time = TemporalRange { start: Some(Timestamp(now)), end: None };
    let mut keys: Vec<String> = Vec::new();
    let mut nodes: Vec<Node> = Vec::new();
    let mut i: usize = 0;
    while i < entities.len()
        invariant
            0 <= i <= entities@.len(),
            keys@.len() == i,
            nodes@.len() == i,
            valid_time == open_from(now),
            forall|j: int| 0 <= j < i ==> #[trigger] keys@[j]@ == mention_key(entities@[j]),
            forall|j: int|
                0 <= j < i ==> {
                    &&& (#[trigger] nodes@[j]).entity_type == entities@[j].entity_type
                    &&& nodes@[j].label@ == entities@[j].text@
                    &&& nodes@[j].properties.0@.len() == 0
                    &&& nodes@[j].valid_time == open_from(now)
                    &&& nodes@[j].transaction_time == open_from(now)
                },
        decreases entities@.len() - i,
    {
        let m = &entities[i];
        keys.push(key_of(m));
        nodes.push(
            Node {
                id: NodeId(new_uuid()),
                entity_type: m.entity_type.clone(),
                label: m.text.clone(),
                properties: Properties::new(),
                valid_time,
                transaction_time: valid_time,
            },
        );
        i = i + 1;
    }
    let mut edges: Vec<Edge> = Vec::new();
    let mut k: usize = 0;
    while k < relationships.len()
        invariant
            0 <= k <= relationships@.len(),
            keys@.len() == entities@.len(),
            nodes@.len() == entities@.len(),
            valid_time == open_from(now),
            forall|j: int| 0 <= j < entities@.len() ==> #[trigger] keys@[j]@ == mention_key(entities@[j]),
            edges@.len() == planned_edges(entities@, nodes@, relationships@.subrange(0, k as int)).len(),
            forall|j: int|
                0 <= j < edges@.len() ==> {
                    let p = planned_edges(entities@, nodes@, relationships@.subrange(0, k as int))[j];
                    &&& (#[trigger] edges@[j]).source_id == p.0
                    &&& edges@[j].target_id == p.1
                    &&& edges@[j].label@ == p.2
                    &&& edges@[j].properties.0@.len() == 0
                    &&& edges@[j].valid_time == open_from(now)
                    &&& edges@[j].transaction_time == open_from(now)
                },
        decreases relationships@.len() - k,
    {
        let r = &relationships[k];
        let ghost before = relationships@.subrange(0, k as int);
        let ghost after = relationships@.subrange(0, k as int + 1);
        assert(after.drop_last() =~= before);
        assert(after.last() == *r);
        let source = find_node(&keys, &nodes, &key_of(&r.source), Ghost(entities@));
        let target = find_node(&keys, &nodes, &key_of(&r.target), Ghost(entities@));
        if r.confident {
            match (source, target) {
                (Some(s), Some(t)) => {
                    edges.push(
                        Edge {
                            id: EdgeId(new_uuid()),
                            source_id: s,
                            target_id: t,
                            label: r.relationship_type.clone(),
                            properties: Properties::new(),
                            valid_time,
                            transaction_time: valid_time,
                        },
                    );
                },
                _ => {},
            }
        }
        k = k + 1;
    }
    assert(relationships@.subrange(0, relationships@.len() as int) =~= relationships@);
    GraphUpdate { nodes, edges }
}

} // verus!
