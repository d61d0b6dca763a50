use graph::rag::entities::{map_ner_type, pattern_mentions, split_text, EntityPattern};
use graph::rag::fixed::{mock_detect, mock_extract};
use graph::rag::graph_update::{plan_graph_update, EntityMention, RelationshipMention};
use graph::rag::relationships::{
    context_span, matches_pattern, pattern_relationship, RelationshipPattern, RelationshipRules,
};
use graph::text::contains_text;
use graph::types::{EntityType, Timestamp};

fn mention(text: &str, t: EntityType, start: usize, end: usize) -> EntityMention {
    EntityMention { text: text.to_string(), entity_type: t, start_pos: start, end_pos: end }
}

fn relation(s: EntityMention, t: EntityMention, kind: &str, confident: bool) -> RelationshipMention {
    RelationshipMention { source: s, target: t, relationship_type: kind.to_string(), confident }
}

#[test]
fn graph_update_adds_a_node_per_entity_and_confident_edges() {
    let entities = vec![
        mention("John", EntityType::Person, 0, 4),
        mention("Apple", EntityType::Organization, 14, 19),
        mention("California", EntityType::Location, 23, 33),
    ];
    let relationships = vec![
        relation(mention("John", EntityType::Person, 0, 4), mention("Apple", EntityType::Organization, 14, 19), "WORKS_FOR", true),
        relation(mention("Apple", EntityType::Organization, 14, 19), mention("California", EntityType::Location, 23, 33), "LOCATED_IN", false),
        relation(mention("Apple", EntityType::Person, 14, 19), mention("California", EntityType::Location, 23, 33), "LOCATED_IN", true),
    ];
    let update = plan_graph_update(&entities, &relationships, 77);
    assert_eq!(update.nodes.len(), 3);
    assert_eq!(update.nodes[0].label, "John");
    assert!(matches!(update.nodes[1].entity_type, EntityType::Organization));
    assert_eq!(update.nodes[2].valid_time.start, Some(Timestamp(77)));
    assert_eq!(update.nodes[2].valid_time.end, None);
    assert_ne!(update.nodes[0].id, update.nodes[1].id);
    // Only the first relationship is confident and has both nodes.
    assert_eq!(update.edges.len(), 1);
    assert_eq!(update.edges[0].source_id, update.nodes[0].id);
    assert_eq!(update.edges[0].target_id, update.nodes[1].id);
    assert_eq!(update.edges[0].label, "WORKS_FOR");
    assert_eq!(update.edges[0].transaction_time.start, Some(Timestamp(77)));
}

#[test]
fn graph_update_uses_the_last_entity_with_a_key() {
    let entities = vec![
        mention("Ada", EntityType::Person, 0, 3),
        mention("Ada", EntityType::Person, 10, 13),
        mention("Lab", EntityType::Location, 20, 23),
    ];
    let relationships = vec![relation(
        mention("Ada", EntityType::Person, 0, 3),
        mention("Lab", EntityType::Location, 20, 23),
        "LOCATED_IN",
        true,
    )];
    let update = plan_graph_update(&entities, &relationships, 0);
    assert_eq!(update.edges.len(), 1);
    assert_eq!(update.edges[0].source_id, update.nodes[1].id);
    assert_eq!(update.edges[0].target_id, update.nodes[2].id);
}

#[test]
fn empty_update() {
    let update = plan_graph_update(&vec![], &vec![], 0);
    assert!(update.nodes.is_empty() && update.edges.is_empty());
}

#[test]
fn text_containment() {
    assert!(contains_text("works at Google", "at"));
    assert!(contains_text("abc", ""));
    assert!(contains_text("héllo wörld", "ö"));
    assert!(!contains_text("abc", "abcd"));
    assert!(!contains_text("abc", "ca"));
}

#[test]
fn span_between_entities() {
    let a = mention("John Doe", EntityType::Person, 0, 8);
    let b = mention("Google", EntityType::Organization, 19, 25);
    assert_eq!(context_span(&a, &b, 512), Some((8, 19)));
    assert_eq!(context_span(&b, &a, 512), Some((8, 19)));
    assert_eq!(context_span(&a, &b, 10), None);
    assert_eq!(context_span(&a, &b, 11), Some((8, 19)));
}

fn works_for(ordered: bool, max_distance: usize, words: &[&str]) -> RelationshipPattern {
    RelationshipPattern {
        name: "employment".to_string(),
        source_type: EntityType::Person,
        target_type: EntityType::Organization,
        relationship_type: "WORKS_FOR".to_string(),
        rules: RelationshipRules {
            max_distance,
            context_words: words.iter().map(|w| w.to_string()).collect(),
            ordered,
        },
    }
}

#[test]
fn custom_patterns() {
    let person = mention("John Doe", EntityType::Person, 0, 8);
    let org = mention("Google", EntityType::Organization, 18, 24);
    let context = " works at ";
    assert!(matches_pattern(&person, &org, context, &works_for(true, 10, &["works"])));
    assert!(!matches_pattern(&person, &org, context, &works_for(true, 9, &["works"])));
    assert!(!matches_pattern(&person, &org, context, &works_for(true, 10, &["works", "for"])));
    assert!(!matches_pattern(&org, &person, context, &works_for(true, 100, &[])));
    let org_first = mention("Google", EntityType::Organization, 0, 6);
    let person_later = mention("John Doe", EntityType::Person, 20, 28);
    // Types swap roles: the source must be the person.
    assert!(!matches_pattern(&org_first, &person_later, context, &works_for(false, 100, &[])));
    // Unordered: a person after the organization still matches; the gap is 0.
    let late_person = mention("John Doe", EntityType::Person, 30, 38);
    assert!(matches_pattern(&late_person, &org, context, &works_for(false, 0, &[])));
    assert!(!matches_pattern(&late_person, &org, context, &works_for(true, 0, &[])));

    let patterns = vec![works_for(true, 1, &[]), works_for(true, 10, &["at"]), works_for(true, 10, &[])];
    let mut second = works_for(true, 10, &["at"]);
    second.relationship_type = "EMPLOYED_BY".to_string();
    let patterns2 = vec![works_for(true, 1, &[]), second];
    assert_eq!(pattern_relationship(&person, &org, context, &patterns).as_deref(), Some("WORKS_FOR"));
    assert_eq!(pattern_relationship(&person, &org, context, &patterns2).as_deref(), Some("EMPLOYED_BY"));
    assert_eq!(pattern_relationship(&person, &org, context, &vec![]), None);
}

#[test]
fn recognizer_labels() {
    assert!(matches!(map_ner_type("PER"), EntityType::Person));
    assert!(matches!(map_ner_type("ORG"), EntityType::Organization));
    assert!(matches!(map_ner_type("LOC"), EntityType::Location));
    assert!(matches!(map_ner_type("MISC"), EntityType::Other));
    assert!(matches!(map_ner_type("per"), EntityType::Other));
}

#[test]
fn long_text_is_split_by_characters() {
    assert_eq!(split_text("short", 10), vec!["short".to_string()]);
    assert_eq!(split_text("abcdefg", 3), vec!["abc", "def", "g"]);
    assert_eq!(split_text("abcdef", 3), vec!["abc", "def"]);
    // Five characters but ten bytes: split because of the bytes, by characters.
    assert_eq!(split_text("ééééé", 6), vec!["ééééé"]);
    assert_eq!(split_text("ééééé", 4), vec!["éééé", "é"]);
    assert_eq!(split_text("", 0), vec!["".to_string()]);
}

#[test]
fn custom_entity_patterns_find_entities() {
    let patterns = vec![
        EntityPattern { name: "email".to_string(), entity_type: EntityType::Other, pattern: r"[a-z.]+@[a-z.]+".to_string() },
        EntityPattern { name: "broken".to_string(), entity_type: EntityType::Other, pattern: "(".to_string() },
        EntityPattern { name: "year".to_string(), entity_type: EntityType::Date, pattern: r"\d{4}".to_string() },
    ];
    let text = "mail john.doe@example.com in 2024 or 2025";
    let found = pattern_mentions(&patterns, text);
    assert_eq!(found.len(), 3);
    assert_eq!(found[0].text, "john.doe@example.com");
    assert_eq!((found[0].start_pos, found[0].end_pos), (5, 25));
    assert!(matches!(found[0].entity_type, EntityType::Other));
    assert_eq!(found[1].text, "2024");
    assert!(matches!(found[1].entity_type, EntityType::Date));
    assert_eq!(found[2].text, "2025");
}

#[test]
fn test_entity_extraction() {
    let text = "John Doe works at Google and can be reached at john.doe@example.com";
    let entities = mock_extract(text);
    assert!(!entities.is_empty());
    assert_eq!(entities.len(), 3);
    assert_eq!(entities[2].0.text, "john.doe@example.com");
    assert!(matches!(entities[2].0.entity_type, EntityType::Other));
    assert_eq!(entities[2].1, 100);
    assert_eq!((entities[1].0.start_pos, entities[1].0.end_pos), (17, 23));
}

#[test]
fn test_relationship_detection() {
    let entities = vec![
        mention("John Doe", EntityType::Person, 0, 8),
        mention("Google", EntityType::Organization, 19, 25),
    ];
    let text = "John Doe works at Google as a software engineer";
    let relationships = mock_detect(text, &entities);
    assert!(!relationships.is_empty());
    let (s, t, kind, confidence) = &relationships[0];
    assert_eq!(entities[*s].text, "John Doe");
    assert_eq!(entities[*t].text, "Google");
    assert_eq!(kind, "WORKS_FOR");
    assert_eq!(*confidence, 95);
}

#[test]
fn test_rag_system() {
    let text = "John works at Apple in California.";
    let entities: Vec<EntityMention> = mock_extract(text).into_iter().map(|(m, _)| m).collect();
    assert!(!entities.is_empty());
    let relationships = mock_detect(text, &entities);
    assert!(!relationships.is_empty());
    assert_eq!(relationships.len(), 2);
    assert_eq!((relationships[0].0, relationships[0].1, relationships[0].2.as_str(), relationships[0].3), (0, 1, "WORKS_FOR", 90));
    assert_eq!((relationships[1].0, relationships[1].1, relationships[1].2.as_str(), relationships[1].3), (1, 2, "LOCATED_IN", 80));
}

#[test]
fn test_rag_integration() {
    let text = "The company Apple was founded by Steve Jobs in California.";
    let entities: Vec<EntityMention> = mock_extract(text).into_iter().map(|(m, _)| m).collect();
    assert!(entities.is_empty());
    let relationships = mock_detect(text, &entities);
    assert!(relationships.is_empty());
}

#[test]
fn fixed_detector_uses_the_last_entity_with_a_name() {
    let entities = vec![
        mention("John", EntityType::Person, 0, 4),
        mention("Apple", EntityType::Organization, 14, 19),
        mention("John", EntityType::Person, 40, 44),
    ];
    let relationships = mock_detect("John works at Apple in California", &entities);
    assert_eq!(relationships.len(), 1);
    assert_eq!((relationships[0].0, relationships[0].1), (2, 1));
    assert!(mock_detect("John works at Apple in California", &Vec::new()).is_empty());
}
