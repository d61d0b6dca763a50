//! The fixed extractor and detector used for testing: they recognise two
//! known sample texts and hand out canned entities and relationships for
//! them.  Confidences are given in hundredths.

use vstd::prelude::*;
use crate::text::{contains_text, text_contains};
use crate::types::{EntityType, EntityTypeModel};
use super::graph_update::EntityMention;

verus! {

/// The first sample text: a person working at a company in a place.
pub open spec fn first_sample() -> Seq<char> {
    "John works at Apple in California"@
}

/// The second sample text: a person working at a company.
pub open spec fn second_sample() -> Seq<char> {
    "John Doe works at Google"@
}

/// An entity as the fixed extractor gives it: text, type, start, end and
/// confidence in hundredths.
pub type MentionModel = (Seq<char>, EntityTypeModel, usize, usize, u8);

/// The model of an entity mention with its confidence.
pub open spec fn mention_model(m: (EntityMention, u8)) -> MentionModel {
    (m.0.text@, m.0.entity_type@, m.0.start_pos, m.0.end_pos, m.1)
}

/// The entities the fixed extractor finds in a text: three for a text that
/// holds the first sample, three for one that holds the second, none
/// otherwise.
pub open spec fn mock_extraction(text: Seq<char>) -> Seq<MentionModel> {
    if text_contains(text, first_sample()) {
        seq![
            ("John"@, EntityTypeModel::Person, 0usize, 4usize, 90u8),
            ("Apple"@, EntityTypeModel::Organization, 14usize, 19usize, 90u8),
            ("California"@, EntityTypeModel::Location, 23usize, 33usize, 90u8),
        ]
    } else if text_contains(text, second_sample()) {
        seq![
            ("John Doe"@, EntityTypeModel::Person, 0usize, 8usize, 90u8),
            ("Google"@, EntityTypeModel::Organization, 17usize, 23usize, 90u8),
            ("john.doe@example.com"@, EntityTypeModel::Other, 50usize, 70usize, 100u8),
        ]
    } else {
        Seq::empty()
    }
}

fn mention(text: &str, entity_type: EntityType, start_pos: usize, end_pos: usize, confidence: u8) -> (r: (
    EntityMention,
    u8,
))
    ensures
        mention_model(r) == (text@, entity_type@, start_pos, end_pos, confidence),
{
    (EntityMention { text: String::from_str(text), entity_type, start_pos, end_pos }, confidence)
}

/// The entities the fixed extractor finds in a text, with their confidences
/// in hundredths.
pub fn mock_extract(text: &str) -> (r: Vec<(EntityMention, u8)>)
    ensures
        r@.len() == mock_extraction(text@).len(),
        forall|i: int| 0 <= i < r@.len() ==> mention_model(#[trigger] r@[i]) == mock_extraction(text@)[i],
{
    if contains_text(text, "John works at Apple in California") {
        vec![
            mention("John", EntityType::Person, 0, 4, 90),
            mention("Apple", EntityType::Organization, 14, 19, 90),
            mention("California", EntityType::Location, 23, 33, 90),
        ]
    } else if contains_text(text, "John Doe works at Google") {
        vec![
            mention("John Doe", EntityType::Person, 0, 8, 90),
            mention("Google", EntityType::Organization, 17, 23, 90),
            mention("john.doe@example.com", EntityType::Other, 50, 70, 100),
        ]
    } else {
        Vec::new()
    }
}

/// The position of the last entity whose text is `name`, if any.
pub open spec fn last_named(entities: Seq<EntityMention>, name: Seq<char>) -> Option<int>
    decreases entities.len(),
{
    if entities.len() == 0 {
        None
    } else if entities.last().text@ == name {
        Some(entities.len() - 1)
    } else {
        last_named(entities.drop_last(), name)
    }
}

/// A relationship as the fixed detector gives it: the positions of its
/// source and target among the entities, its type and its confidence in
/// hundredths.
pub type LinkModel = (usize, usize, Seq<char>, u8);

/// The relationship between the last entities named `source` and `target`,
/// when both are there.
pub open spec fn link_between(
    entities: Seq<EntityMention>,
    source: Seq<char>,
    target: Seq<char>,
    kind: Seq<char>,
    confidence: u8,
) -> Seq<LinkModel> {
    match (last_named(entities, source), last_named(entities, target)) {
        (Some(s), Some(t)) => seq![(s as usize, t as usize, kind, confidence)],
        _ => Seq::empty(),
    }
}

/// The relationships the fixed detector finds among the entities of a text:
/// for the first sample, John works for Apple and Apple is located in
/// California; for the second, John Doe works for Google; none when the text
/// holds neither sample or there are no entities.
pub open spec fn mock_detection(text: Seq<char>, entities: Seq<EntityMention>) -> Seq<LinkModel> {
    if text_contains(text, first_sample()) && entities.len() > 0 {
        link_between(entities, "John"@, "Apple"@, "WORKS_FOR"@, 90)
            + link_between(entities, "Apple"@, "California"@, "LOCATED_IN"@, 80)
    } else if text_contains(text, second_sample()) && entities.len() > 0 {
        link_between(entities, "John Doe"@, "Google"@, "WORKS_FOR"@, 95)
    } else {
        Seq::empty()
    }
}

/// Whether a text is the given literal.
fn text_is(s: &String, lit: &str) -> (r: bool)
    ensures
        r == (s@ == lit@),
{
    let l = String::from_str(lit);
    *s == l
}

/// The position of the last entity whose text is `name`.
fn find_last(entities: &Vec<EntityMention>, name: &str) -> (r: Option<usize>)
    ensures
        match last_named(entities@, name@) {
            Some(k) => r == Some(k as usize),
            None => r is None,
        },
{
    let mut found: Option<usize> = None;
    let mut i: usize = 0;
    while i < entities.len()
        invariant
            0 <= i <= entities@.len(),
            match last_named(entities@.subrange(0, i as int), name@) {
                Some(k) => found == Some(k as usize),
                None => found is None,
            },
        decreases entities@.len() - i,
    {
        proof {
            let next = entities@.subrange(0, i + 1);
            assert(next.drop_last() =~= entities@.subrange(0, i as int));
            assert(next.last() == entities@[i as int]);
        }
        if text_is(&entities[i].text, name) {
            found = Some(i);
        }
        i = i + 1;
    }
    assert(entities@.subrange(0, entities@.len() as int) =~= entities@);
    found
}

/// Adds the relationship between the last entities named `source` and
/// `target`, when both are there.
fn push_link(
    out: &mut Vec<(usize, usize, String, u8)>,
    entities: &Vec<EntityMention>,
    source: &str,
    target: &str,
    kind: &str,
    confidence: u8,
)
    ensures
        final(out)@.len() == old(out)@.len() + link_between(entities@, source@, target@, kind@, confidence).len(),
        forall|i: int| 0 <= i < old(out)@.len() ==> #[trigger] final(out)@[i] == old(out)@[i],
        forall|i: int|
            0 <= i < link_between(entities@, source@, target@, kind@, confidence).len() ==> {
                let x = #[trigger] final(out)@[old(out)@.len() + i];
                (x.0, x.1, x.2@, x.3) == link_between(entities@, source@, target@, kind@, confidence)[i]
            },
{
    match (find_last(entities, source), find_last(entities, target)) {
        (Some(s), Some(t)) => {
            out.push((s, t, String::from_str(kind), confidence));
        },
        _ => {},
    }
}

/// The relationships the fixed detector finds among the entities of a text:
/// positions of source and target, type, and confidence in hundredths.
pub fn mock_detect(text: &str, entities: &Vec<EntityMention>) -> (r: Vec<(usize, usize, String, u8)>)
    ensures
        r@.len() == mock_detection(text@, entities@).len(),
        forall|i: int|
            0 <= i < r@.len() ==> {
                let x = #[trigger] r@[i];
                (x.0, x.1, x.2@, x.3) == mock_detection(text@, entities@)[i]
            },
{
    let mut out: Vec<(usize, usize, String, u8)> = Vec::new();
    if contains_text(text, "John works at Apple in California") && entities.len() > 0 {
        push_link(&mut out, entities, "John", "Apple", "WORKS_FOR", 90);
        let ghost mid = out@;
        push_link(&mut out, entities, "Apple", "California", "LOCATED_IN", 80);
        proof {
            let l1 = link_between(entities@, "John"@, "Apple"@, "WORKS_FOR"@, 90);
            let l2 = link_between(entities@, "Apple"@, "California"@, "LOCATED_IN"@, 80);
            let all = l1 + l2;
            assert forall|i: int| 0 <= i < out@.len() implies {
                let x = #[trigger] out@[i];
                (x.0, x.1, x.2@, x.3) == all[i]
            } by {
                if i < l1.len() {
                    assert(out@[i] == mid[i]);
                    assert(mid[0 + i] == mid[i]);
                } else {
                    let k = i - l1.len();
                    assert(out@[mid.len() + k] == out@[i]);
                }
            }
        }
    } else if contains_text(text, "John Doe works at Google") && entities.len() > 0 {
        push_link(&mut out, entities, "John Doe", "Google", "WORKS_FOR", 95);
        proof {
            assert forall|i: int| 0 <= i < out@.len() implies {
                let x = #[trigger] out@[i];
                (x.0, x.1, x.2@, x.3) == link_between(entities@, "John Doe"@, "Google"@, "WORKS_FOR"@, 95)[i]
            } by {
                assert(out@[0 + i] == out@[i]);
            }
        }
    }
    out
}

} // verus!
