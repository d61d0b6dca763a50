//! Reading what the temporal table returns: index entries out of stored
//! items, and the instant and version of a returned version.

use vstd::prelude::*;
use crate::error::Error;
use crate::json::{JsonValue, JsonModel, model_get, get_member, as_str, model_first_key_at, lemma_model_first_unique};
use crate::text::{i64_text_value, parse_i64};
use crate::time::{DateTimeUtc, NANOS_PER_SECOND, MIN_UTC, MAX_UTC, rfc3339_read, rfc3339_of, instant_of, parse_rfc3339};
use crate::types::{
    EntityId, EntityType, TemporalRange, entity_type_of_lower, lowercase, uuid_parse, uuid_error_text, uuid_text,
    parse_uuid,
};
use super::dynamodb::{AttributeModel, AttributeText, DynamoDBTemporal, record_item_model};
use super::index::TemporalIndexEntry;

verus! {

// ---------------------------------------------------------------------------
// Attributes of a returned item
// ---------------------------------------------------------------------------

/// `attrs[i]` is the first attribute named `key`.
pub open spec fn first_attr_at(attrs: Seq<(String, AttributeText)>, key: Seq<char>, i: int) -> bool {
    &&& 0 <= i < attrs.len()
    &&& attrs[i].0@ == key
    &&& forall|j: int| 0 <= j < i ==> attrs[j].0@ != key
}

/// The value of the first attribute named `key`, if any.
pub open spec fn attr_value(attrs: Seq<(String, AttributeText)>, key: Seq<char>) -> Option<AttributeText> {
    if exists|i: int| first_attr_at(attrs, key, i) {
        Some(attrs[choose|i: int| first_attr_at(attrs, key, i)].1)
    } else {
        None
    }
}

/// The integer a number attribute holds; `None` when the attribute is
/// missing, is not a number, or does not read as an `i64`.
pub open spec fn number_attr(attrs: Seq<(String, AttributeText)>, key: Seq<char>) -> Option<i64> {
    match attr_value(attrs, key) {
        Some(AttributeText::N(n)) => i64_text_value(n@),
        _ => None,
    }
}

/// The text a string attribute holds; `None` when the attribute is missing or
/// is not a string.
pub open spec fn string_attr(attrs: Seq<(String, AttributeText)>, key: Seq<char>) -> Option<Seq<char>> {
    match attr_value(attrs, key) {
        Some(AttributeText::S(s)) => Some(s@),
        _ => None,
    }
}

/// The identifier a string attribute holds, if it holds one.
pub open spec fn id_attr(attrs: Seq<(String, AttributeText)>, key: Seq<char>) -> Option<u128> {
    match string_attr(attrs, key) {
        Some(s) => uuid_parse(s),
        None => None,
    }
}

/// Whole seconds that name an instant the calendar holds.
pub open spec fn seconds_fit(v: Option<i64>) -> bool {
    v matches Some(s) ==> MIN_UTC <= s * NANOS_PER_SECOND <= MAX_UTC
}

/// The instant of whole seconds.
pub open spec fn seconds_instant(s: i64) -> int {
    s * NANOS_PER_SECOND
}

/// There is only one first attribute with a name.
proof fn lemma_first_attr_unique(attrs: Seq<(String, AttributeText)>, key: Seq<char>, i: int, j: int)
    requires
        first_attr_at(attrs, key, i),
        first_attr_at(attrs, key, j),
    ensures
        i == j,
{
    if i < j {
        assert(attrs[i].0@ != key);
    } else if j < i {
        assert(attrs[j].0@ != key);
    }
}

/// The first attribute named `key`, if any.
pub fn attribute<'a>(attrs: &'a Vec<(String, AttributeText)>, key: &str) -> (r: Option<&'a AttributeText>)
    ensures
        match r {
            Some(a) => attr_value(attrs@, key@) == Some(*a),
            None => attr_value(attrs@, key@) is None,
        },
{
    let k = String::from_str(key);
    let mut i: usize = 0;
    while i < attrs.len()
        invariant
            0 <= i <= attrs@.len(),
            k@ == key@,
            forall|j: int| 0 <= j < i ==> attrs@[j].0@ != key@,
        decreases attrs@.len() - i,
    {
        if attrs[i].0 == k {
            proof {
                assert(first_attr_at(attrs@, key@, i as int));
                let c = choose|c: int| first_attr_at(attrs@, key@, c);
                lemma_first_attr_unique(attrs@, key@, c, i as int);
            }
            return Some(&attrs[i].1);
        }
        i = i + 1;
    }
    proof {
        assert forall|c: int| !first_attr_at(attrs@, key@, c) by {
            if 0 <= c < attrs@.len() {
                assert(attrs@[c].0@ != key@);
            }
        }
    }
    None
}

/// The integer of a number attribute.
fn number_attribute(attrs: &Vec<(String, AttributeText)>, key: &str) -> (r: Option<i64>)
    ensures
        r == number_attr(attrs@, key@),
{
    match attribute(attrs, key) {
        Some(AttributeText::N(n)) => parse_i64(n.as_str()),
        _ => None,
    }
}

/// The identifier of a string attribute.
fn id_attribute(attrs: &Vec<(String, AttributeText)>, key: &str) -> (r: Option<u128>)
    ensures
        r == id_attr(attrs@, key@),
{
    match attribute(attrs, key) {
        Some(AttributeText::S(s)) => match parse_uuid(s.as_str()) {
            Ok(v) => Some(v),
            Err(_) => None,
        },
        _ => None,
    }
}

// ---------------------------------------------------------------------------
// Index entries out of returned items
// ---------------------------------------------------------------------------

/// The refusal of an item as an index entry, if any: the first of its valid
/// start, valid end and transaction start (numbers of whole seconds) that is
/// missing, then its version identifier.
pub open spec fn entry_refusal(attrs: Seq<(String, AttributeText)>) -> Option<Seq<char>> {
    if number_attr(attrs, "valid_time_start"@) is None {
        Some("Missing valid_time_start"@)
    } else if number_attr(attrs, "valid_time_end"@) is None {
        Some("Missing valid_time_end"@)
    } else if number_attr(attrs, "transaction_time_start"@) is None {
        Some("Missing transaction_time_start"@)
    } else if id_attr(attrs, "version_id"@) is None {
        Some("Missing version_id"@)
    } else {
        None
    }
}

/// The instants of an item lie within the calendar wherever the reading
/// turns them into date-times: the transaction end once the three required
/// times are read, and those three once the item is not refused.
pub open spec fn entry_times_fit(attrs: Seq<(String, AttributeText)>) -> bool {
    &&& (number_attr(attrs, "valid_time_start"@) is Some && number_attr(attrs, "valid_time_end"@) is Some
        && number_attr(attrs, "transaction_time_start"@) is Some) ==> seconds_fit(
        number_attr(attrs, "transaction_time_end"@),
    )
    &&& entry_refusal(attrs) is None ==> {
        &&& seconds_fit(number_attr(attrs, "valid_time_start"@))
        &&& seconds_fit(number_attr(attrs, "valid_time_end"@))
        &&& seconds_fit(number_attr(attrs, "transaction_time_start"@))
    }
}

/// Whether `e` is the entry of `entity_id` that an unrefused item describes.
pub open spec fn entry_of_attrs(entity_id: EntityId, attrs: Seq<(String, AttributeText)>, e: TemporalIndexEntry) -> bool {
    &&& e.entity_id == entity_id
    &&& e.valid_time_start == seconds_instant(number_attr(attrs, "valid_time_start"@).unwrap())
    &&& e.valid_time_end == seconds_instant(number_attr(attrs, "valid_time_end"@).unwrap())
    &&& e.transaction_time_start == seconds_instant(number_attr(attrs, "transaction_time_start"@).unwrap())
    &&& e.transaction_time_end == match number_attr(attrs, "transaction_time_end"@) {
        Some(s) => Some(seconds_instant(s) as DateTimeUtc),
        None => None,
    }
    &&& Some(e.version_id) == id_attr(attrs, "version_id"@)
}

/// Whether whole seconds, where given, name an instant the calendar holds.
fn fits(v: Option<i64>) -> (b: bool)
    ensures
        b == seconds_fit(v),
{
    match v {
        Some(s) => {
            let t = (s as i128) * NANOS_PER_SECOND;
            MIN_UTC <= t && t <= MAX_UTC
        },
        None => true,
    }
}

/// Whether the instants of an item lie within the calendar wherever reading
/// it as an index entry turns them into date-times (see `entry_times_fit`).
pub fn index_entry_times_fit(attrs: &Vec<(String, AttributeText)>) -> (b: bool)
    ensures
        b == entry_times_fit(attrs@),
{
    let vs = number_attribute(attrs, "valid_time_start");
    let ve = number_attribute(attrs, "valid_time_end");
    let ts = number_attribute(attrs, "transaction_time_start");
    let te = number_attribute(attrs, "transaction_time_end");
    let version = id_attribute(attrs, "version_id");
    let three = vs.is_some() && ve.is_some() && ts.is_some();
    let end_ok = !three || fits(te);
    let starts_ok = !(three && version.is_some()) || (fits(vs) && fits(ve) && fits(ts));
    end_ok && starts_ok
}

/// Whether the valid start of a returned version, where it reads, names an
/// instant the calendar holds.
pub fn version_stamp_fits(attrs: &Vec<(String, AttributeText)>) -> (b: bool)
    ensures
        b == seconds_fit(number_attr(attrs@, "valid_time_start"@)),
{
    fits(number_attribute(attrs, "valid_time_start"))
}

/// The instant of whole seconds the calendar holds.
fn seconds_to_instant(s: i64) -> (t: DateTimeUtc)
    requires
        seconds_fit(Some(s)),
    ensures
        t == seconds_instant(s),
{
    (s as i128) * NANOS_PER_SECOND
}

impl DynamoDBTemporal {
    /// The index entry of `entity_id` that a returned item describes; refused
    /// with `Serialization` at the first missing time or a missing version.
    pub fn create_index_entry(&self, entity_id: EntityId, attrs: &Vec<(String, AttributeText)>) -> (r: Result<
        TemporalIndexEntry,
        Error,
    >)
        requires
            entry_times_fit(attrs@),
        ensures
            match r {
                Ok(e) => entry_refusal(attrs@) is None && entry_of_attrs(entity_id, attrs@, e),
                Err(e) => entry_refusal(attrs@) matches Some(m) && (e matches Error::Serialization(x) && x@ == m),
            },
    {
        let valid_start = match number_attribute(attrs, "valid_time_start") {
            Some(v) => v,
            None => {
                return Err(Error::Serialization(String::from_str("Missing valid_time_start")));
            },
        };
        let valid_end = match number_attribute(attrs, "valid_time_end") {
            Some(v) => v,
            None => {
                return Err(Error::Serialization(String::from_str("Missing valid_time_end")));
            },
        };
        let tx_start = match number_attribute(attrs, "transaction_time_start") {
            Some(v) => v,
            None => {
                return Err(Error::Serialization(String::from_str("Missing transaction_time_start")));
            },
        };
        let tx_end = match number_attribute(attrs, "transaction_time_end") {
            Some(v) => Some(seconds_to_instant(v)),
            None => None,
        };
        let version = match id_attribute(attrs, "version_id") {
            Some(v) => v,
            None => {
                return Err(Error::Serialization(String::from_str("Missing version_id")));
            },
        };
        Ok(
            TemporalIndexEntry {
                entity_id,
                valid_time_start: seconds_to_instant(valid_start),
                valid_time_end: seconds_to_instant(valid_end),
                transaction_time_start: seconds_to_instant(tx_start),
                transaction_time_end: tx_end,
                version_id: version,
            },
        )
    }
}

/// The data attribute of a returned item; refused with `Serialization` when
/// it has none.
pub fn required_data(attrs: &Vec<(String, AttributeText)>) -> (r: Result<&AttributeText, Error>)
    ensures
        match r {
            Ok(a) => attr_value(attrs@, "data"@) == Some(*a),
            Err(e) => attr_value(attrs@, "data"@) is None && (e matches Error::Serialization(x) && x@
                == "Missing data"@),
        },
{
    match attribute(attrs, "data") {
        Some(a) => Ok(a),
        None => Err(Error::Serialization(String::from_str("Missing data"))),
    }
}

/// The instant (its valid start) and version of a returned version; refused
/// with `Serialization` when either is missing.
pub fn version_stamp(attrs: &Vec<(String, AttributeText)>) -> (r: Result<(DateTimeUtc, u128), Error>)
    requires
        seconds_fit(number_attr(attrs@, "valid_time_start"@)),
    ensures
        match number_attr(attrs@, "valid_time_start"@) {
            None => r matches Err(Error::Serialization(x)) && x@ == "Missing valid_time_start"@,
            Some(s) => match id_attr(attrs@, "version_id"@) {
                None => r matches Err(Error::Serialization(x)) && x@ == "Missing version_id"@,
                Some(v) => r matches Ok(p) && p.0 == seconds_instant(s) && p.1 == v,
            },
        },
{
    let start = match number_attribute(attrs, "valid_time_start") {
        Some(s) => seconds_to_instant(s),
        None => {
            return Err(Error::Serialization(String::from_str("Missing valid_time_start")));
        },
    };
    match id_attribute(attrs, "version_id") {
        Some(v) => Ok((start, v)),
        None => Err(Error::Serialization(String::from_str("Missing version_id"))),
    }
}

// ---------------------------------------------------------------------------
// Index entries out of scanned items
// ---------------------------------------------------------------------------

/// The text of string member `key` of a model object, if any.
pub open spec fn model_str(v: JsonModel, key: Seq<char>) -> Option<Seq<char>> {
    match model_get(v, key) {
        Some(JsonModel::Str(s)) => Some(s),
        _ => None,
    }
}

/// The refusal of a scanned item as an index entry, if any: the first of its
/// entity id, entity type, valid start, valid end, transaction start and
/// version texts that is missing; then the version that does not read as an
/// identifier; then the first time that does not read as RFC 3339.
pub open spec fn scanned_refusal(item: JsonModel) -> Option<Seq<char>> {
    if model_str(item, "entity_id"@) is None {
        Some("Missing entity_id"@)
    } else if model_str(item, "entity_type"@) is None {
        Some("Missing entity_type"@)
    } else if model_str(item, "valid_time_start"@) is None {
        Some("Missing valid_time_start"@)
    } else if model_str(item, "valid_time_end"@) is None {
        Some("Missing valid_time_end"@)
    } else if model_str(item, "transaction_time_start"@) is None {
        Some("Missing transaction_time_start"@)
    } else if model_str(item, "version_id"@) is None {
        Some("Missing version_id"@)
    } else if uuid_parse(model_str(item, "version_id"@).unwrap()) is None {
        Some(uuid_error_text(model_str(item, "version_id"@).unwrap()))
    } else {
        match rfc3339_read(model_str(item, "valid_time_start"@).unwrap()) {
            Err(m) => Some(m.0),
            Ok(_) => match rfc3339_read(model_str(item, "valid_time_end"@).unwrap()) {
                Err(m) => Some(m.0),
                Ok(_) => match rfc3339_read(model_str(item, "transaction_time_start"@).unwrap()) {
                    Err(m) => Some(m.0),
                    Ok(_) => None,
                },
            },
        }
    }
}

/// The instant an RFC 3339 text denotes (meaningful where it reads).
pub open spec fn rfc3339_instant_of(s: Seq<char>) -> int {
    match rfc3339_read(s) {
        Ok(p) => instant_of(p),
        Err(_) => 0,
    }
}

/// Whether `e` is the entry an unrefused scanned item describes; its
/// transaction is still current.
pub open spec fn scanned_entry(item: JsonModel, e: TemporalIndexEntry) -> bool {
    &&& e.entity_id.id@ == model_str(item, "entity_id"@).unwrap()
    &&& e.entity_id.entity_type@ == entity_type_of_lower(lowercase(model_str(item, "entity_type"@).unwrap()))
    &&& e.valid_time_start == rfc3339_instant_of(model_str(item, "valid_time_start"@).unwrap())
    &&& e.valid_time_end == rfc3339_instant_of(model_str(item, "valid_time_end"@).unwrap())
    &&& e.transaction_time_start == rfc3339_instant_of(model_str(item, "transaction_time_start"@).unwrap())
    &&& e.transaction_time_end is None
    &&& Some(e.version_id) == uuid_parse(model_str(item, "version_id"@).unwrap())
}

/// The text of string member `key` of an object.
pub fn str_member<'a>(item: &'a JsonValue, key: &str) -> (r: Option<&'a str>)
    ensures
        match r {
            Some(s) => model_str(item@, key@) == Some(s@),
            None => model_str(item@, key@) is None,
        },
{
    match get_member(item, key) {
        Some(v) => as_str(v),
        None => None,
    }
}

/// The text of a required string member, or the refusal naming it.
fn required_str<'a>(item: &'a JsonValue, key: &str, missing: &str) -> (r: Result<&'a str, Error>)
    ensures
        match r {
            Ok(s) => model_str(item@, key@) == Some(s@),
            Err(e) => model_str(item@, key@) is None && (e matches Error::Serialization(x) && x@ == missing@),
        },
{
    match str_member(item, key) {
        Some(s) => Ok(s),
        None => Err(Error::Serialization(String::from_str(missing))),
    }
}

/// An RFC 3339 instant, or its refusal.
fn required_instant(s: &str) -> (r: Result<DateTimeUtc, Error>)
    ensures
        match rfc3339_read(s@) {
            Ok(p) => r matches Ok(t) && t == instant_of(p),
            Err(m) => r matches Err(Error::Serialization(x)) && x@ == m.0,
        },
{
    match parse_rfc3339(s) {
        Ok(t) => Ok(t),
        Err((debug, _)) => Err(Error::Serialization(debug)),
    }
}

/// The index entry a scanned item describes, or its refusal.
pub fn scanned_index_entry(item: &JsonValue) -> (r: Result<TemporalIndexEntry, Error>)
    ensures
        match r {
            Ok(e) => scanned_refusal(item@) is None && scanned_entry(item@, e),
            Err(e) => scanned_refusal(item@) matches Some(m) && (e matches Error::Serialization(x) && x@ == m),
        },
{
    let id = match required_str(item, "entity_id", "Missing entity_id") {
        Ok(s) => s,
        Err(e) => {
            return Err(e);
        },
    };
    let type_text = match required_str(item, "entity_type", "Missing entity_type") {
        Ok(s) => s,
        Err(e) => {
            return Err(e);
        },
    };
    let entity_type = match EntityType::from_str(type_text) {
        Ok(t) => t,
        Err(e) => {
            return Err(e);
        },
    };
    let valid_start = match required_str(item, "valid_time_start", "Missing valid_time_start") {
        Ok(s) => s,
        Err(e) => {
            return Err(e);
        },
    };
    let valid_end = match required_str(item, "valid_time_end", "Missing valid_time_end") {
        Ok(s) => s,
        Err(e) => {
            return Err(e);
        },
    };
    let tx_start = match required_str(item, "transaction_time_start", "Missing transaction_time_start") {
        Ok(s) => s,
        Err(e) => {
            return Err(e);
        },
    };
    let version_text = match required_str(item, "version_id", "Missing version_id") {
        Ok(s) => s,
        Err(e) => {
            return Err(e);
        },
    };
    let version = match parse_uuid(version_text) {
        Ok(v) => v,
        Err(m) => {
            return Err(Error::Serialization(m));
        },
    };
    let valid_time_start = match required_instant(valid_start) {
        Ok(t) => t,
        Err(e) => {
            return Err(e);
        },
    };
    let valid_time_end = match required_instant(valid_end) {
        Ok(t) => t,
        Err(e) => {
            return Err(e);
        },
    };
    let transaction_time_start = match required_instant(tx_start) {
        Ok(t) => t,
        Err(e) => {
            return Err(e);
        },
    };
    Ok(
        TemporalIndexEntry {
            entity_id: EntityId { entity_type, id: String::from_str(id) },
            valid_time_start,
            valid_time_end,
            transaction_time_start,
            transaction_time_end: None,
            version_id: version,
        },
    )
}

impl DynamoDBTemporal {
    /// Every scanned item as an index entry, in order; refused at the first
    /// item that cannot be read.
    pub fn get_all_entries(&self, items: &Vec<JsonValue>) -> (r: Result<Vec<TemporalIndexEntry>, Error>)
        ensures
            match r {
                Ok(entries) => entries@.len() == items@.len() && forall|i: int|
                    0 <= i < items@.len() ==> scanned_refusal(#[trigger] items@[i]@) is None
                        && scanned_entry(items@[i]@, entries@[i]),
                Err(e) => exists|i: int|
                    #![trigger items@[i]]
                    0 <= i < items@.len() && (forall|j: int|
                        0 <= j < i ==> scanned_refusal(#[trigger] items@[j]@) is None) && (
                    scanned_refusal(items@[i]@) matches Some(m) && e matches Error::Serialization(x)
                        && x@ == m),
            },
    {
        let mut entries: Vec<TemporalIndexEntry> = Vec::new();
        let mut i: usize = 0;
        while i < items.len()
            invariant
                0 <= i <= items@.len(),
                entries@.len() == i,
                forall|k: int|
                    0 <= k < i ==> scanned_refusal(#[trigger] items@[k]@) is None && scanned_entry(
                        items@[k]@,
                        entries@[k],
                    ),
            decreases items@.len() - i,
        {
            match scanned_index_entry(&items[i]) {
                Ok(e) => {
                    entries.push(e);
                },
                Err(e) => {
                    return Err(e);
                },
            }
            i = i + 1;
        }
        Ok(entries)
    }
}

// ---------------------------------------------------------------------------
// What a write reads back as
// ---------------------------------------------------------------------------

/// A written item as a scan returns it: a JSON object of its attributes,
/// string and number values alike.
pub open spec fn scanned_item_model(attrs: Seq<(Seq<char>, AttributeModel)>) -> JsonModel {
    JsonModel::Object(
        attrs.map_values(
            |a: (Seq<char>, AttributeModel)|
                match a.1 {
                    AttributeModel::S(t) => (a.0, JsonModel::Str(t)),
                    AttributeModel::N(t) => (a.0, JsonModel::Number(t)),
                },
        ),
    )
}

/// The member of a seven-member object found by its key, when no earlier
/// member has that key.
proof fn lemma_model_get_at(ms: Seq<(Seq<char>, JsonModel)>, key: Seq<char>, i: int)
    requires
        0 <= i < ms.len(),
        ms[i].0 == key,
        forall|j: int| 0 <= j < i ==> ms[j].0 != key,
    ensures
        model_get(JsonModel::Object(ms), key) == Some(ms[i].1),
{
    assert(model_first_key_at(ms, key, i));
    let c = choose|c: int| model_first_key_at(ms, key, c);
    lemma_model_first_unique(ms, key, c, i);
}

/// A version that `store_item` writes and a scan returns reads back, through
/// `scanned_index_entry`, as an index entry with the written identifier,
/// valid range, transaction start and version, still current; this holds
/// where the RFC 3339 reader gives back the instants the writer wrote and
/// the identifier reader gives back the written version.
pub proof fn lemma_stored_version_reads_back(
    entity_id: EntityId,
    range: TemporalRange,
    data: Seq<char>,
    version_id: u128,
    now: DateTimeUtc,
    e: TemporalIndexEntry,
)
    requires
        range.start is Some,
        range.end is Some,
        rfc3339_read(rfc3339_of(range.start.unwrap().0 as int)) matches Ok(p) && instant_of(p) == range.start.unwrap().0,
        rfc3339_read(rfc3339_of(range.end.unwrap().0 as int)) matches Ok(p) && instant_of(p) == range.end.unwrap().0,
        rfc3339_read(rfc3339_of(now as int)) matches Ok(p) && instant_of(p) == now,
        uuid_parse(uuid_text(version_id)) == Some(version_id),
        scanned_entry(scanned_item_model(record_item_model(entity_id, range, data, version_id, now)), e),
    ensures
        scanned_refusal(scanned_item_model(record_item_model(entity_id, range, data, version_id, now))) is None,
        e.entity_id.id@ == entity_id.id@,
        e.valid_time_start == range.start.unwrap().0,
        e.valid_time_end == range.end.unwrap().0,
        e.transaction_time_start == now,
        e.transaction_time_end is None,
        e.version_id == version_id,
{
    let attrs = record_item_model(entity_id, range, data, version_id, now);
    let item = scanned_item_model(attrs);
    let ms = attrs.map_values(
        |a: (Seq<char>, AttributeModel)|
            match a.1 {
                AttributeModel::S(t) => (a.0, JsonModel::Str(t)),
                AttributeModel::N(t) => (a.0, JsonModel::Number(t)),
            },
    );
    assert(item == JsonModel::Object(ms));
    reveal_strlit("entity_id");
    reveal_strlit("entity_type");
    reveal_strlit("valid_time_start");
    reveal_strlit("valid_time_end");
    reveal_strlit("transaction_time_start");
    reveal_strlit("version_id");
    reveal_strlit("data");
    assert(ms.len() == 7);
    assert(ms[0].0 == "entity_id"@);
    assert(ms[1].0 == "entity_type"@);
    assert(ms[2].0 == "valid_time_start"@);
    assert(ms[3].0 == "valid_time_end"@);
    assert(ms[4].0 == "transaction_time_start"@);
    assert(ms[5].0 == "version_id"@);
    assert(ms[6].0 == "data"@);
    assert("entity_id"@ != "entity_type"@) by {
        assert("entity_id"@[7] != "entity_type"@[7]);
    }
    assert("valid_time_start"@ != "valid_time_end"@) by {
        assert("valid_time_start"@[11] != "valid_time_end"@[11]);
    }
    lemma_model_get_at(ms, "entity_id"@, 0);
    lemma_model_get_at(ms, "entity_type"@, 1);
    lemma_model_get_at(ms, "valid_time_start"@, 2);
    lemma_model_get_at(ms, "valid_time_end"@, 3);
    lemma_model_get_at(ms, "transaction_time_start"@, 4);
    lemma_model_get_at(ms, "version_id"@, 5);
}

} // verus!
