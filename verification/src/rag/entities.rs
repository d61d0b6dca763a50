//! The rule-based part of entity extraction: splitting long text into
//! chunks, naming the types a recognizer reports, and the entities custom
//! patterns find.

use vstd::prelude::*;
use crate::types::{EntityType, EntityTypeModel};
use super::graph_update::EntityMention;

verus! {

/// A custom entity pattern: the entities a regular expression finds get the
/// pattern's type.
#[derive(Debug)]
pub struct EntityPattern {
    pub name: String,
    pub entity_type: EntityType,
    pub pattern: String,
}

/// The entity type of a recognizer label: persons, organizations and
/// locations by their labels, anything else as `Other`.
pub open spec fn ner_type(label: Seq<char>) -> EntityTypeModel {
    if label == "PER"@ {
        EntityTypeModel::Person
    } else if label == "ORG"@ {
        EntityTypeModel::Organization
    } else if label == "LOC"@ {
        EntityTypeModel::Location
    } else {
        EntityTypeModel::Other
    }
}

/// The entity type of a recognizer label (`PER`, `ORG`, `LOC`; `MISC` and
/// anything else are `Other`).
pub fn map_ner_type(label: &str) -> (t: EntityType)
    ensures
        t@ == ner_type(label@),
{
    let l = String::from_str(label);
    if l == String::from_str("PER") {
        EntityType::Person
    } else if l == String::from_str("ORG") {
        EntityType::Organization
    } else if l == String::from_str("LOC") {
        EntityType::Location
    } else {
        EntityType::Other
    }
}

/// The successive pieces of `k` characters of `s`, the last one shorter when
/// `k` does not divide its length.
pub open spec fn char_chunks(s: Seq<char>, k: nat) -> Seq<Seq<char>>
    decreases s.len(),
{
    if s.len() == 0 || k == 0 {
        Seq::empty()
    } else if s.len() <= k {
        seq![s]
    } else {
        seq![s.take(k as int)] + char_chunks(s.skip(k as int), k)
    }
}

/// Splitting into pieces loses nothing and keeps every piece within its
/// size: the pieces of `s`, joined in order, are `s`, and none is empty or
/// longer than `k` characters.
pub proof fn lemma_chunks_rejoin(s: Seq<char>, k: nat)
    requires
        k > 0,
    ensures
        char_chunks(s, k).flatten() == s,
        forall|i: int| 0 <= i < char_chunks(s, k).len() ==> 0 < (#[trigger] char_chunks(s, k)[i]).len() <= k,
    decreases s.len(),
{
    if s.len() == 0 {
    } else if s.len() <= k {
        let c = char_chunks(s, k);
        assert(c == seq![s]);
        assert(c.drop_first() =~= Seq::<Seq<char>>::empty());
        assert(c.flatten() == c.first() + c.drop_first().flatten());
        assert(c.flatten() =~= s);
    } else {
        let rest = s.skip(k as int);
        lemma_chunks_rejoin(rest, k);
        let c = char_chunks(s, k);
        assert(c == seq![s.take(k as int)] + char_chunks(rest, k));
        assert(c.first() == s.take(k as int));
        assert(c.drop_first() =~= char_chunks(rest, k));
        assert(c.flatten() == c.first() + c.drop_first().flatten());
        assert(s.take(k as int) + rest =~= s);
        assert forall|i: int| 0 <= i < c.len() implies 0 < (#[trigger] c[i]).len() <= k by {
            if i > 0 {
                assert(c[i] == char_chunks(rest, k)[i - 1]);
            }
        }
    }
}

/// The pieces a text is processed in: the whole text when its UTF-8 length
/// is within `max`, otherwise its pieces of `max` characters.
pub open spec fn text_pieces(s: Seq<char>, bytes: nat, max: nat) -> Seq<Seq<char>> {
    if bytes <= max {
        seq![s]
    } else {
        char_chunks(s, max)
    }
}

/// The texts of a list of strings.
pub open spec fn string_views(v: Seq<String>) -> Seq<Seq<char>> {
    v.map_values(|s: String| s@)
}

/// Splits a text into the pieces it is processed in: the whole text when it
/// is no longer than `max_text_length` bytes, otherwise pieces of
/// `max_text_length` characters.
pub fn split_text(text: &str, max_text_length: usize) -> (r: Vec<String>)
    requires
        text.len() > max_text_length ==> max_text_length > 0,
    ensures
        string_views(r@) == text_pieces(text@, text.len() as nat, max_text_length as nat),
{
    if text.len() <= max_text_length {
        let mut r: Vec<String> = Vec::new();
        r.push(String::from_str(text));
        assert(string_views(r@) =~= seq![text@]);
        return r;
    }
    let n = text.unicode_len();
    let k = max_text_length;
    let mut r: Vec<String> = Vec::new();
    let mut from: usize = 0;
    assert(text@.skip(0) =~= text@);
    assert(string_views(r@) =~= Seq::<Seq<char>>::empty());
    assert(string_views(r@) + char_chunks(text@, k as nat) =~= char_chunks(text@, k as nat));
    while from < n
        invariant
            n == text@.len(),
            k > 0,
            0 <= from <= n,
            string_views(r@) + char_chunks(text@.skip(from as int), k as nat) == char_chunks(text@, k as nat),
        decreases n - from,
    {
        let ghost rest = text@.skip(from as int);
        let end = if n - from <= k {
            n
        } else {
            from + k
        };
        let piece = String::from_str(text.substring_char(from, end));
        proof {
            if rest.len() <= k {
                assert(piece@ =~= rest);
                assert(char_chunks(rest, k as nat) == seq![rest]);
                assert(text@.skip(n as int) =~= Seq::<char>::empty());
            } else {
                assert(piece@ =~= rest.take(k as int));
                assert(rest.skip(k as int) =~= text@.skip(from + k));
                assert(char_chunks(rest, k as nat) == seq![rest.take(k as int)] + char_chunks(
                    rest.skip(k as int),
                    k as nat,
                ));
            }
        }
        let ghost before = r@;
        r.push(piece);
        assert(string_views(r@) =~= string_views(before).push(piece@));
        from = end;
        proof {
            assert(string_views(r@) + char_chunks(text@.skip(from as int), k as nat) =~= string_views(before)
                + char_chunks(rest, k as nat));
        }
    }
    assert(text@.skip(n as int) =~= Seq::<char>::empty());
    assert(string_views(r@) + Seq::<Seq<char>>::empty() =~= string_views(r@));
    r
}

/// What a regular expression finds in a text, as the `regex` crate compiles
/// (`Regex::new`) and runs it (`Regex::find_iter`): for each successive
/// non-overlapping match its byte offsets and its text; `None` when the
/// pattern does not compile.
pub uninterp spec fn regex_find(pattern: Seq<char>, text: Seq<char>) -> Option<Seq<(usize, usize, Seq<char>)>>;

/// The contents of a list of matches.
pub open spec fn matches_model(v: Seq<(usize, usize, String)>) -> Seq<(usize, usize, Seq<char>)> {
    v.map_values(|m: (usize, usize, String)| (m.0, m.1, m.2@))
}

/// Compiles `pattern` with `regex::Regex::new` and lists the matches
/// `Regex::find_iter` yields in `text` (`Match::start`, `Match::end`,
/// `Match::as_str`); `None` when the pattern does not compile.  The outcome
/// is named by `regex_find`.
#[verifier::external_body]
fn find_pattern(pattern: &str, text: &str) -> (r: Option<Vec<(usize, usize, String)>>)
    ensures
        r matches Some(v) ==> regex_find(pattern@, text@) == Some(matches_model(v@)),
        r is None ==> regex_find(pattern@, text@) is None,
{
    match regex::Regex::new(pattern) {
        Ok(re) => Some(re.find_iter(text).map(|m| (m.start(), m.end(), m.as_str().to_string())).collect()),
        Err(_) => None,
    }
}

/// The (type, start, end, text) of the entities the patterns find in a
/// text: pattern after pattern, each one's matches in order; a pattern that
/// does not compile finds nothing.
pub open spec fn pattern_finds(ps: Seq<EntityPattern>, text: Seq<char>) -> Seq<(EntityTypeModel, int, int, Seq<char>)>
    decreases ps.len(),
{
    if ps.len() == 0 {
        Seq::empty()
    } else {
        let p = ps.last();
        pattern_finds(ps.drop_last(), text) + match regex_find(p.pattern@, text) {
            Some(ms) => typed_matches(p.entity_type@, ms),
            None => Seq::empty(),
        }
    }
}

/// Matches, each with the type `t`.
pub open spec fn typed_matches(t: EntityTypeModel, ms: Seq<(usize, usize, Seq<char>)>) -> Seq<
    (EntityTypeModel, int, int, Seq<char>),
> {
    ms.map_values(|m: (usize, usize, Seq<char>)| (t, m.0 as int, m.1 as int, m.2))
}

/// The contents of an entity: its type, start, end and words.
pub open spec fn mention_model(m: EntityMention) -> (EntityTypeModel, int, int, Seq<char>) {
    (m.entity_type@, m.start_pos as int, m.end_pos as int, m.text@)
}

/// The contents of a list of entities.
pub open spec fn mentions_model(v: Seq<EntityMention>) -> Seq<(EntityTypeModel, int, int, Seq<char>)> {
    v.map_values(|m: EntityMention| mention_model(m))
}

/// The entities the custom patterns find in a text (each regular
/// expression is compiled for the call).
pub fn pattern_mentions(patterns: &Vec<EntityPattern>, text: &str) -> (r: Vec<EntityMention>)
    ensures
        mentions_model(r@) == pattern_finds(patterns@, text@),
{
    let mut r: Vec<EntityMention> = Vec::new();
    let mut i: usize = 0;
    while i < patterns.len()
        invariant
            0 <= i <= patterns@.len(),
            mentions_model(r@) == pattern_finds(patterns@.subrange(0, i as int), text@),
        decreases patterns@.len() - i,
    {
        let p = &patterns[i];
        let ghost ps = patterns@.subrange(0, i as int + 1);
        assert(ps.drop_last() =~= patterns@.subrange(0, i as int));
        assert(ps.last() == *p);
        let ghost start = r@;
        match find_pattern(p.pattern.as_str(), text) {
            Some(found) => {
                let ghost ms = matches_model(found@);
                let mut j: usize = 0;
                while j < found.len()
                    invariant
                        0 <= j <= found@.len(),
                        ms == matches_model(found@),
                        r@.len() == start.len() + j,
                        r@.subrange(0, start.len() as int) == start,
                        forall|q: int|
                            0 <= q < j ==> mention_model(#[trigger] r@[start.len() + q]) == (
                                p.entity_type@,
                                ms[q].0 as int,
                                ms[q].1 as int,
                                ms[q].2,
                            ),
                    decreases found@.len() - j,
                {
                    let (s, e, t) = &found[j];
                    let ghost before = r@;
                    r.push(EntityMention { text: t.clone(), entity_type: p.entity_type.clone(), start_pos: *s, end_pos: *e });
                    assert(r@.subrange(0, start.len() as int) =~= before.subrange(0, start.len() as int));
                    assert forall|q: int| 0 <= q < j + 1 implies mention_model(#[trigger] r@[start.len() + q]) == (
                        p.entity_type@,
                        ms[q].0 as int,
                        ms[q].1 as int,
                        ms[q].2,
                    ) by {
                        if q < j {
                            assert(r@[start.len() + q] == before[start.len() + q]);
                        }
                    }
                    j = j + 1;
                }
                proof {
                    let added = typed_matches(p.entity_type@, ms);
                    assert forall|q: int| 0 <= q < r@.len() implies #[trigger] mentions_model(r@)[q] == (
                    mentions_model(start) + added)[q] by {
                        if q < start.len() {
                            assert(r@[q] == r@.subrange(0, start.len() as int)[q]);
                        } else {
                            assert(mention_model(r@[start.len() + (q - start.len())]) == added[q
                                - start.len()]);
                        }
                    }
                    assert(mentions_model(r@) =~= mentions_model(start) + added);
                }
            },
            None => {
                assert(r@ == start);
            },
        }
        i = i + 1;
    }
    assert(patterns@.subrange(0, patterns@.len() as int) =~= patterns@);
    r
}

} // verus!
