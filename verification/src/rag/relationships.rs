//! The rule-based part of relationship detection: the stretch of text
//! between two entities, and the custom patterns a pair of entities may
//! match.

use vstd::prelude::*;
use crate::text::{contains_text, text_contains};
use crate::types::EntityType;
use super::graph_update::EntityMention;

verus! {

/// The rules of a custom relationship pattern.
#[derive(Debug)]
pub struct RelationshipRules {
    /// Largest gap allowed between the end of the source and the start of the
    /// target.
    pub max_distance: usize,
    /// Words that must all occur in the text between the two entities.
    pub context_words: Vec<String>,
    /// Whether the source must not start after the target.
    pub ordered: bool,
}

/// A custom relationship pattern.
#[derive(Debug)]
pub struct RelationshipPattern {
    pub name: String,
    pub source_type: EntityType,
    pub target_type: EntityType,
    pub relationship_type: String,
    pub rules: RelationshipRules,
}

/// The stretch between two entities: from the end of the one that starts
/// first to the start of the other.
pub open spec fn span_of(source: EntityMention, target: EntityMention) -> (int, int) {
    if source.start_pos < target.start_pos {
        (source.end_pos as int, target.start_pos as int)
    } else {
        (target.end_pos as int, source.start_pos as int)
    }
}

/// The gap from the end of the source to the start of the target, or 0 when
/// the target starts first.
pub open spec fn gap(source: EntityMention, target: EntityMention) -> int {
    if target.start_pos >= source.end_pos {
        target.start_pos - source.end_pos
    } else {
        0
    }
}

/// Whether two entities, with `context` between them, match a pattern: the
/// types agree, the order holds where the pattern asks for it, the gap is
/// within the pattern's distance, and every context word occurs in the
/// context.
pub open spec fn pattern_matches(
    source: EntityMention,
    target: EntityMention,
    context: Seq<char>,
    p: RelationshipPattern,
) -> bool {
    &&& source.entity_type@ == p.source_type@
    &&& target.entity_type@ == p.target_type@
    &&& !(p.rules.ordered && source.start_pos > target.start_pos)
    &&& gap(source, target) <= p.rules.max_distance
    &&& forall|k: int|
        0 <= k < p.rules.context_words@.len() ==> text_contains(
            context,
            (#[trigger] p.rules.context_words@[k])@,
        )
}

/// The stretch of text between two entities, or `None` when it is longer
/// than `max_text_length` and the pair is passed over.
pub fn context_span(source: &EntityMention, target: &EntityMention, max_text_length: usize) -> (r: Option<
    (usize, usize),
>)
    requires
        span_of(*source, *target).0 <= span_of(*source, *target).1,
    ensures
        match r {
            Some(p) => p.0 == span_of(*source, *target).0 && p.1 == span_of(*source, *target).1
                && p.1 - p.0 <= max_text_length,
            None => span_of(*source, *target).1 - span_of(*source, *target).0 > max_text_length,
        },
{
    let (start, end) = if source.start_pos < target.start_pos {
        (source.end_pos, target.start_pos)
    } else {
        (target.end_pos, source.start_pos)
    };
    if end - start > max_text_length {
        None
    } else {
        Some((start, end))
    }
}

/// Whether two entities, with `context` between them, match a pattern.
pub fn matches_pattern(
    source: &EntityMention,
    target: &EntityMention,
    context: &str,
    pattern: &RelationshipPattern,
) -> (r: bool)
    ensures
        r == pattern_matches(*source, *target, context@, *pattern),
{
    if !source.entity_type.same_as(&pattern.source_type) || !target.entity_type.same_as(&pattern.target_type) {
        return false;
    }
    if pattern.rules.ordered && source.start_pos > target.start_pos {
        return false;
    }
    let distance = if target.start_pos >= source.end_pos {
        target.start_pos - source.end_pos
    } else {
        0
    };
    if distance > pattern.rules.max_distance {
        return false;
    }
    let words = &pattern.rules.context_words;
    let mut k: usize = 0;
    while k < words.len()
        invariant
            0 <= k <= words@.len(),
            *words == pattern.rules.context_words,
            source.entity_type@ == pattern.source_type@,
            target.entity_type@ == pattern.target_type@,
            !(pattern.rules.ordered && source.start_pos > target.start_pos),
            gap(*source, *target) <= pattern.rules.max_distance,
            forall|j: int| 0 <= j < k ==> text_contains(context@, (#[trigger] words@[j])@),
        decreases words@.len() - k,
    {
        if !contains_text(context, words[k].as_str()) {
            assert(!text_contains(context@, words@[k as int]@));
            return false;
        }
        k = k + 1;
    }
    true
}

/// The type of the relationship the first matching pattern gives two
/// entities, if any pattern matches.
pub fn pattern_relationship(
    source: &EntityMention,
    target: &EntityMention,
    context: &str,
    patterns: &Vec<RelationshipPattern>,
) -> (r: Option<String>)
    ensures
        match r {
            Some(t) => exists|i: int|
                0 <= i < patterns@.len() && pattern_matches(*source, *target, context@, #[trigger] patterns@[i])
                    && (forall|j: int| 0 <= j < i ==> !pattern_matches(*source, *target, context@, #[trigger] patterns@[j]))
                    && t@ == patterns@[i].relationship_type@,
            None => forall|i: int|
                0 <= i < patterns@.len() ==> !pattern_matches(*source, *target, context@, #[trigger] patterns@[i]),
        },
{
    let mut i: usize = 0;
    while i < patterns.len()
        invariant
            0 <= i <= patterns@.len(),
            forall|j: int| 0 <= j < i ==> !pattern_matches(*source, *target, context@, #[trigger] patterns@[j]),
        decreases patterns@.len() - i,
    {
        if matches_pattern(source, target, context, &patterns[i]) {
            return Some(patterns[i].relationship_type.clone());
        }
        i = i + 1;
    }
    None
}

} // verus!
