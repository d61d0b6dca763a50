//! Reading the memory entries that search hits and stored documents hold.
//! An entry's embedding is a list of floating-point numbers, which the caller
//! decodes; everything else of the entry is read here.

use vstd::prelude::*;
use crate::error::Error;
use crate::json::{JsonValue, JsonModel, get_member, model_get};
use crate::temporal::records::{model_str, str_member};
use crate::time::{DateTimeUtc, rfc3339_read, instant_of, parse_rfc3339};
use crate::types::{EntityType, EntityTypeModel, entity_type_of_lower, lowercase};

verus! {

/// The entity type that a source's `node_type` text names, if it has one.
pub open spec fn source_node_type(source: JsonModel) -> Option<EntityTypeModel> {
    match model_str(source, "node_type"@) {
        Some(s) => Some(entity_type_of_lower(lowercase(s))),
        None => None,
    }
}

/// The text of a string member, or the empty text where there is none.
pub open spec fn str_or_empty(source: JsonModel, key: Seq<char>) -> Seq<char> {
    match model_str(source, key) {
        Some(s) => s,
        None => Seq::empty(),
    }
}

/// The entity type a source names, if any.
fn node_type_of(source: &JsonValue) -> (r: Option<EntityType>)
    ensures
        match r {
            Some(t) => source_node_type(source@) == Some(t@),
            None => source_node_type(source@) is None,
        },
{
    match str_member(source, "node_type") {
        Some(s) => match EntityType::from_str(s) {
            Ok(t) => Some(t),
            Err(_) => None,
        },
        None => None,
    }
}

/// The identifier and entity type of a search hit's source.  The type is
/// read first and never refused; a source without a textual `id` is refused
/// with "Missing id field".
pub fn hit_identity(source: &JsonValue) -> (r: Result<(String, Option<EntityType>), Error>)
    ensures
        match model_str(source@, "id"@) {
            Some(id) => r matches Ok(p) && p.0@ == id && match p.1 {
                Some(t) => source_node_type(source@) == Some(t@),
                None => source_node_type(source@) is None,
            },
            None => r matches Err(Error::OpenSearch(m)) && m@ == "Missing id field"@,
        },
{
    let node_type = node_type_of(source);
    match str_member(source, "id") {
        Some(id) => Ok((id.to_string(), node_type)),
        None => Err(Error::OpenSearch(String::from_str("Missing id field"))),
    }
}

/// An RFC 3339 member of a search hit, read as chrono reads it, with the
/// empty text standing for a missing one; a refusal is an OpenSearch error
/// with chrono's display text.
fn hit_instant(source: &JsonValue, key: &str) -> (r: Result<DateTimeUtc, Error>)
    ensures
        match rfc3339_read(str_or_empty(source@, key@)) {
            Ok(p) => r matches Ok(t) && t == instant_of(p),
            Err(m) => r matches Err(Error::OpenSearch(x)) && x@ == m.1,
        },
{
    let text = match str_member(source, key) {
        Some(s) => s,
        None => "",
    };
    proof {
        reveal_strlit("");
        assert(text@ =~= str_or_empty(source@, key@));
    }
    match parse_rfc3339(text) {
        Ok(t) => Ok(t),
        Err((_, shown)) => Err(Error::OpenSearch(shown)),
    }
}

/// The creation and update instants and the content of a search hit's source:
/// each instant read from its RFC 3339 text (the empty text where it is
/// missing, which chrono refuses), the first refusal given as an OpenSearch
/// error with chrono's display text; a missing content reads as empty.
pub fn hit_times(source: &JsonValue) -> (r: Result<(DateTimeUtc, DateTimeUtc, String), Error>)
    ensures
        match rfc3339_read(str_or_empty(source@, "created_at"@)) {
            Err(m) => r matches Err(Error::OpenSearch(x)) && x@ == m.1,
            Ok(c) => match rfc3339_read(str_or_empty(source@, "updated_at"@)) {
                Err(m) => r matches Err(Error::OpenSearch(x)) && x@ == m.1,
                Ok(u) => r matches Ok(v) && v.0 == instant_of(c) && v.1 == instant_of(u)
                    && v.2@ == str_or_empty(source@, "content"@),
            },
        },
{
    let created = hit_instant(source, "created_at")?;
    let updated = hit_instant(source, "updated_at")?;
    let content = match str_member(source, "content") {
        Some(s) => s.to_string(),
        None => String::new(),
    };
    proof {
        reveal_strlit("");
    }
    Ok((created, updated, content))
}

/// Whether member `key` of a source is an object.
pub open spec fn has_object(source: JsonModel, key: Seq<char>) -> bool {
    model_get(source, key) matches Some(JsonModel::Object(_))
}

/// A required string member of a stored document, or the refusal naming it.
fn required_text<'a>(source: &'a JsonValue, key: &str, missing: &str) -> (r: Result<&'a str, Error>)
    ensures
        match model_str(source@, key@) {
            Some(s) => r matches Ok(x) && x@ == s,
            None => r matches Err(Error::OpenSearch(m)) && m@ == missing@,
        },
{
    match str_member(source, key) {
        Some(s) => Ok(s),
        None => Err(Error::OpenSearch(String::from_str(missing))),
    }
}

/// A required RFC 3339 member of a stored document: refused with `missing`
/// where it is absent, and as a parse error with chrono's display text where
/// chrono refuses it.
fn document_instant(source: &JsonValue, key: &str, missing: &str) -> (r: Result<DateTimeUtc, Error>)
    ensures
        match model_str(source@, key@) {
            None => r matches Err(Error::OpenSearch(m)) && m@ == missing@,
            Some(s) => match rfc3339_read(s) {
                Ok(p) => r matches Ok(t) && t == instant_of(p),
                Err(m) => r matches Err(Error::Parse(x)) && x@ == m.1,
            },
        },
{
    let text = required_text(source, key, missing)?;
    match parse_rfc3339(text) {
        Ok(t) => Ok(t),
        Err((_, shown)) => Err(Error::Parse(shown)),
    }
}

/// The identifier, entity type, creation and update instants and content of
/// a stored memory document.  Refused, in this order: metadata that is not an
/// object ("Invalid metadata format"); a missing id ("Missing id field"); a
/// missing creation time, then one chrono refuses (a parse error with its
/// display text); the same for the update time; a missing content.
pub fn document_fields(source: &JsonValue) -> (r: Result<(String, Option<EntityType>, DateTimeUtc, DateTimeUtc, String), Error>)
    ensures
        !has_object(source@, "metadata"@) ==> (r matches Err(Error::OpenSearch(m)) && m@ == "Invalid metadata format"@),
        has_object(source@, "metadata"@) ==> match model_str(source@, "id"@) {
            None => r matches Err(Error::OpenSearch(m)) && m@ == "Missing id field"@,
            Some(id) => match model_str(source@, "created_at"@) {
                None => r matches Err(Error::OpenSearch(m)) && m@ == "Missing created_at field"@,
                Some(c) => match rfc3339_read(c) {
                    Err(e) => r matches Err(Error::Parse(x)) && x@ == e.1,
                    Ok(cp) => match model_str(source@, "updated_at"@) {
                        None => r matches Err(Error::OpenSearch(m)) && m@ == "Missing updated_at field"@,
                        Some(u) => match rfc3339_read(u) {
                            Err(e) => r matches Err(Error::Parse(x)) && x@ == e.1,
                            Ok(up) => match model_str(source@, "content"@) {
                                None => r matches Err(Error::OpenSearch(m)) && m@ == "Missing content field"@,
                                Some(content) => r matches Ok(v) && v.0@ == id && v.2 == instant_of(cp)
                                    && v.3 == instant_of(up) && v.4@ == content && match v.1 {
                                        Some(t) => source_node_type(source@) == Some(t@),
                                        None => source_node_type(source@) is None,
                                    },
                            },
                        },
                    },
                },
            },
        },
{
    let metadata_is_object = match get_member(source, "metadata") {
        Some(JsonValue::Object(_)) => true,
        _ => false,
    };
    if !metadata_is_object {
        return Err(Error::OpenSearch(String::from_str("Invalid metadata format")));
    }
    let node_type = node_type_of(source);
    let id = required_text(source, "id", "Missing id field")?;
    let created = document_instant(source, "created_at", "Missing created_at field")?;
    let updated = document_instant(source, "updated_at", "Missing updated_at field")?;
    let content = required_text(source, "content", "Missing content field")?;
    Ok((id.to_string(), node_type, created, updated, content.to_string()))
}

} // verus!
