//! Core data: identifiers, entity types, timestamps, temporal ranges, nodes
//! and edges of the bi-temporal knowledge graph.

use vstd::prelude::*;
use crate::error::Error;
use crate::json::JsonValue;
use crate::json::{first_key_at, lacks_key, insert_member, member_set};
use crate::time::{DateTimeUtc, utc_now};

verus! {

// ---------------------------------------------------------------------------
// Identifiers
// ---------------------------------------------------------------------------

/// The lower-case hexadecimal digit for `d` (0 to 15).
pub open spec fn hex_char(d: int) -> char {
    seq!['0', '1', '2', '3', '4', '5', '6', '7', '8', '9', 'a', 'b', 'c', 'd', 'e', 'f'][d]
}

/// The `k`-th hexadecimal digit (0 is the most significant) of a 128-bit value.
pub open spec fn nibble(v: u128, k: int) -> int {
    (v as int / vstd::arithmetic::power2::pow2((4 * (31 - k)) as nat) as int) % 16
}

/// How many hyphens precede position `j` of a hyphenated identifier.
pub open spec fn hyphens_before(j: int) -> int {
    if j < 9 { 0 } else if j < 14 { 1 } else if j < 19 { 2 } else if j < 24 { 3 } else { 4 }
}

/// The hyphenated lower-case form of a 128-bit identifier: 32 hexadecimal
/// digits, most significant first, grouped 8-4-4-4-12.
pub open spec fn uuid_text(v: u128) -> Seq<char> {
    Seq::new(
        36,
        |j: int|
            if j == 8 || j == 13 || j == 18 || j == 23 {
                '-'
            } else {
                hex_char(nibble(v, j - hyphens_before(j)))
            },
    )
}

/// Whether an identifier's bits mark it as a random (version 4) UUID of the
/// RFC 4122 variant: the version nibble (bits 76 to 79, counting from the
/// least significant) is 4 and the two variant bits (62 and 63) are `10`.
pub open spec fn is_random_uuid(v: u128) -> bool {
    (v >> 76u128) & 0xfu128 == 4u128 && (v >> 62u128) & 3u128 == 2u128
}

/// Draws a fresh random (version 4) identifier through `uuid::Uuid::new_v4`
/// and returns its 128 bits (`Uuid::as_u128`, big-endian).  `new_v4` masks
/// random bits with `0xFFFFFFFFFFFF4FFFBFFFFFFFFFFFFFFF` and sets
/// `0x40008000000000000000`, so the version and variant bits are fixed; the
/// other bits are random and not stated.
#[verifier::external_body]
pub(crate) fn new_uuid() -> (r: u128)
    ensures
        is_random_uuid(r),
{
    uuid::Uuid::new_v4().as_u128()
}

/// Formats an identifier through `uuid::Uuid::from_u128` and `to_string`,
/// which the uuid crate documents as the hyphenated lower-case form.
#[verifier::external_body]
pub(crate) fn uuid_to_string(v: u128) -> (r: String)
    ensures
        r@ == uuid_text(v),
{
    uuid::Uuid::from_u128(v).to_string()
}

/// What `uuid::Uuid::parse_str` makes of a text: the identifier it denotes,
/// or the message (the error's `Display`) of the error it gives.
pub uninterp spec fn uuid_read(s: Seq<char>) -> Result<u128, Seq<char>>;

/// The identifier a text denotes, if it denotes one.
pub open spec fn uuid_parse(s: Seq<char>) -> Option<u128> {
    match uuid_read(s) {
        Ok(v) => Some(v),
        Err(_) => None,
    }
}

/// The message of the error for a text that denotes no identifier.
pub open spec fn uuid_error_text(s: Seq<char>) -> Seq<char> {
    match uuid_read(s) {
        Ok(_) => Seq::empty(),
        Err(m) => m,
    }
}

/// Reads an identifier through `uuid::Uuid::parse_str` (and `as_u128`),
/// keeping the error's message (its `Display`) when the text is not an
/// identifier.  The outcome is named by `uuid_read`.
#[verifier::external_body]
pub(crate) fn parse_uuid(s: &str) -> (r: Result<u128, String>)
    ensures
        r matches Ok(v) ==> (uuid_read(s@) matches Ok(x) && x == v),
        r matches Err(m) ==> (uuid_read(s@) matches Err(x) && x == m@),
{
    match uuid::Uuid::parse_str(s) {
        Ok(u) => Ok(u.as_u128()),
        Err(e) => Err(e.to_string()),
    }
}

/// Unique identifier for nodes in the graph.
#[derive(Clone, Copy, Debug, PartialEq, Eq, Structural, Hash)]
pub struct NodeId(pub u128);

/// Unique identifier for edges in the graph.
#[derive(Clone, Copy, Debug, PartialEq, Eq, Structural, Hash)]
pub struct EdgeId(pub u128);

impl NodeId {
    /// The identifier in hyphenated form.
    pub fn to_string(&self) -> (s: String)
        ensures
            s@ == uuid_text(self.0),
    {
        uuid_to_string(self.0)
    }
}

impl EdgeId {
    /// The identifier in hyphenated form.
    pub fn to_string(&self) -> (s: String)
        ensures
            s@ == uuid_text(self.0),
    {
        uuid_to_string(self.0)
    }
}

// ---------------------------------------------------------------------------
// Entity types
// ---------------------------------------------------------------------------

/// Type of entity in the graph.
#[derive(Debug)]
pub enum EntityType {
    Node,
    Edge,
    Person,
    Organization,
    Location,
    Event,
    Topic,
    Document,
    Vertex,
    Date,
    Time,
    Money,
    Percentage,
    Product,
    Other,
    Custom(String),
}

/// The mathematical content of an entity type.
pub ghost enum EntityTypeModel {
    Node,
    Edge,
    Person,
    Organization,
    Location,
    Event,
    Topic,
    Document,
    Vertex,
    Date,
    Time,
    Money,
    Percentage,
    Product,
    Other,
    Custom(Seq<char>),
}

impl View for EntityType {
    type V = EntityTypeModel;

    open spec fn view(&self) -> EntityTypeModel {
        match self {
            EntityType::Node => EntityTypeModel::Node,
            EntityType::Edge => EntityTypeModel::Edge,
            EntityType::Person => EntityTypeModel::Person,
            EntityType::Organization => EntityTypeModel::Organization,
            EntityType::Location => EntityTypeModel::Location,
            EntityType::Event => EntityTypeModel::Event,
            EntityType::Topic => EntityTypeModel::Topic,
            EntityType::Document => EntityTypeModel::Document,
            EntityType::Vertex => EntityTypeModel::Vertex,
            EntityType::Date => EntityTypeModel::Date,
            EntityType::Time => EntityTypeModel::Time,
            EntityType::Money => EntityTypeModel::Money,
            EntityType::Percentage => EntityTypeModel::Percentage,
            EntityType::Product => EntityTypeModel::Product,
            EntityType::Other => EntityTypeModel::Other,
            EntityType::Custom(s) => EntityTypeModel::Custom(s@),
        }
    }
}

/// The display name of an entity type: the variant's name, or the custom text.
pub open spec fn entity_type_text(t: EntityTypeModel) -> Seq<char> {
    match t {
        EntityTypeModel::Node => "Node"@,
        EntityTypeModel::Edge => "Edge"@,
        EntityTypeModel::Person => "Person"@,
        EntityTypeModel::Organization => "Organization"@,
        EntityTypeModel::Location => "Location"@,
        EntityTypeModel::Event => "Event"@,
        EntityTypeModel::Topic => "Topic"@,
        EntityTypeModel::Document => "Document"@,
        EntityTypeModel::Vertex => "Vertex"@,
        EntityTypeModel::Date => "Date"@,
        EntityTypeModel::Time => "Time"@,
        EntityTypeModel::Money => "Money"@,
        EntityTypeModel::Percentage => "Percentage"@,
        EntityTypeModel::Product => "Product"@,
        EntityTypeModel::Other => "Other"@,
        EntityTypeModel::Custom(s) => s,
    }
}

/// The entity type that an already lower-cased name denotes: one of the
/// built-in names, or else a custom type holding the name.
pub open spec fn entity_type_of_lower(l: Seq<char>) -> EntityTypeModel {
    if l == "node"@ {
        EntityTypeModel::Node
    } else if l == "edge"@ {
        EntityTypeModel::Edge
    } else if l == "person"@ {
        EntityTypeModel::Person
    } else if l == "organization"@ {
        EntityTypeModel::Organization
    } else if l == "location"@ {
        EntityTypeModel::Location
    } else if l == "event"@ {
        EntityTypeModel::Event
    } else if l == "topic"@ {
        EntityTypeModel::Topic
    } else if l == "document"@ {
        EntityTypeModel::Document
    } else if l == "vertex"@ {
        EntityTypeModel::Vertex
    } else if l == "date"@ {
        EntityTypeModel::Date
    } else if l == "time"@ {
        EntityTypeModel::Time
    } else if l == "money"@ {
        EntityTypeModel::Money
    } else if l == "percentage"@ {
        EntityTypeModel::Percentage
    } else if l == "product"@ {
        EntityTypeModel::Product
    } else if l == "other"@ {
        EntityTypeModel::Other
    } else {
        EntityTypeModel::Custom(l)
    }
}

/// Unicode lower-casing of a text, as `str::to_lowercase` computes it.
pub uninterp spec fn lowercase(s: Seq<char>) -> Seq<char>;

/// Lower-cases a text with `str::to_lowercase` (the Unicode `Lowercase`
/// mapping); the result is named by `lowercase`.
#[verifier::external_body]
fn to_lowercase(s: &str) -> (r: String)
    ensures
        r@ == lowercase(s@),
{
    s.to_lowercase()
}

fn text_is(s: &String, lit: &str) -> (r: bool)
    ensures
        r == (s@ == lit@),
{
    let l = String::from_str(lit);
    *s == l
}

impl EntityType {
    /// The display name of this entity type.
    pub fn to_string(&self) -> (s: String)
        ensures
            s@ == entity_type_text(self@),
    {
        match self {
            EntityType::Node => String::from_str("Node"),
            EntityType::Edge => String::from_str("Edge"),
            EntityType::Person => String::from_str("Person"),
            EntityType::Organization => String::from_str("Organization"),
            EntityType::Location => String::from_str("Location"),
            EntityType::Event => String::from_str("Event"),
            EntityType::Topic => String::from_str("Topic"),
            EntityType::Document => String::from_str("Document"),
            EntityType::Vertex => String::from_str("Vertex"),
            EntityType::Date => String::from_str("Date"),
            EntityType::Time => String::from_str("Time"),
            EntityType::Money => String::from_str("Money"),
            EntityType::Percentage => String::from_str("Percentage"),
            EntityType::Product => String::from_str("Product"),
            EntityType::Other => String::from_str("Other"),
            EntityType::Custom(s) => s.clone(),
        }
    }

    /// Parses an entity type name, ignoring case: a built-in name gives its
    /// variant, any other text gives a custom type holding the lower-cased text.
    /// Parsing never fails.
    pub fn from_str(s: &str) -> (r: Result<EntityType, Error>)
        ensures
            r is Ok,
            r.unwrap()@ == entity_type_of_lower(lowercase(s@)),
    {
        let l = to_lowercase(s);
        let t = if text_is(&l, "node") {
            EntityType::Node
        } else if text_is(&l, "edge") {
            EntityType::Edge
        } else if text_is(&l, "person") {
            EntityType::Person
        } else if text_is(&l, "organization") {
            EntityType::Organization
        } else if text_is(&l, "location") {
            EntityType::Location
        } else if text_is(&l, "event") {
            EntityType::Event
        } else if text_is(&l, "topic") {
            EntityType::Topic
        } else if text_is(&l, "document") {
            EntityType::Document
        } else if text_is(&l, "vertex") {
            EntityType::Vertex
        } else if text_is(&l, "date") {
            EntityType::Date
        } else if text_is(&l, "time") {
            EntityType::Time
        } else if text_is(&l, "money") {
            EntityType::Money
        } else if text_is(&l, "percentage") {
            EntityType::Percentage
        } else if text_is(&l, "product") {
            EntityType::Product
        } else if text_is(&l, "other") {
            EntityType::Other
        } else {
            EntityType::Custom(l)
        };
        Ok(t)
    }

    /// Whether two entity types are the same.
    pub fn same_as(&self, other: &EntityType) -> (r: bool)
        ensures
            r == (self@ == other@),
    {
        match (self, other) {
            (EntityType::Node, EntityType::Node) => true,
            (EntityType::Edge, EntityType::Edge) => true,
            (EntityType::Person, EntityType::Person) => true,
            (EntityType::Organization, EntityType::Organization) => true,
            (EntityType::Location, EntityType::Location) => true,
            (EntityType::Event, EntityType::Event) => true,
            (EntityType::Topic, EntityType::Topic) => true,
            (EntityType::Document, EntityType::Document) => true,
            (EntityType::Vertex, EntityType::Vertex) => true,
            (EntityType::Date, EntityType::Date) => true,
            (EntityType::Time, EntityType::Time) => true,
            (EntityType::Money, EntityType::Money) => true,
            (EntityType::Percentage, EntityType::Percentage) => true,
            (EntityType::Product, EntityType::Product) => true,
            (EntityType::Other, EntityType::Other) => true,
            (EntityType::Custom(a), EntityType::Custom(b)) => *a == *b,
            _ => false,
        }
    }

    /// The default entity type, `Node`.
    pub fn default_type() -> (r: EntityType)
        ensures
            r@ == EntityTypeModel::Node,
    {
        EntityType::Node
    }
}

impl Clone for EntityType {
    fn clone(&self) -> (r: Self)
        ensures
            r == *self,
    {
        match self {
            EntityType::Node => EntityType::Node,
            EntityType::Edge => EntityType::Edge,
            EntityType::Person => EntityType::Person,
            EntityType::Organization => EntityType::Organization,
            EntityType::Location => EntityType::Location,
            EntityType::Event => EntityType::Event,
            EntityType::Topic => EntityType::Topic,
            EntityType::Document => EntityType::Document,
            EntityType::Vertex => EntityType::Vertex,
            EntityType::Date => EntityType::Date,
            EntityType::Time => EntityType::Time,
            EntityType::Money => EntityType::Money,
            EntityType::Percentage => EntityType::Percentage,
            EntityType::Product => EntityType::Product,
            EntityType::Other => EntityType::Other,
            EntityType::Custom(s) => EntityType::Custom(s.clone()),
        }
    }
}

// ---------------------------------------------------------------------------
// Entity identifiers
// ---------------------------------------------------------------------------

/// Identifier of an entity: its type and its id text.
#[derive(Debug)]
pub struct EntityId {
    pub entity_type: EntityType,
    pub id: String,
}

/// The mathematical content of an entity identifier.
pub ghost struct EntityIdModel {
    pub entity_type: EntityTypeModel,
    pub id: Seq<char>,
}

impl View for EntityId {
    type V = EntityIdModel;

    open spec fn view(&self) -> EntityIdModel {
        EntityIdModel { entity_type: self.entity_type@, id: self.id@ }
    }
}

impl PartialEq for EntityType {
    fn eq(&self, other: &EntityType) -> (r: bool) {
        self.same_as(other)
    }
}

impl vstd::std_specs::cmp::PartialEqSpecImpl for EntityType {
    open spec fn obeys_eq_spec() -> bool {
        true
    }

    open spec fn eq_spec(&self, other: &EntityType) -> bool {
        self@ == other@
    }
}

impl PartialEq for EntityId {
    fn eq(&self, other: &EntityId) -> (r: bool) {
        self.same_as(other)
    }
}

impl vstd::std_specs::cmp::PartialEqSpecImpl for EntityId {
    open spec fn obeys_eq_spec() -> bool {
        true
    }

    open spec fn eq_spec(&self, other: &EntityId) -> bool {
        self@ == other@
    }
}

impl Clone for EntityId {
    fn clone(&self) -> (r: Self)
        ensures
            r == *self,
    {
        EntityId { entity_type: self.entity_type.clone(), id: self.id.clone() }
    }
}

impl EntityId {
    /// Creates an entity identifier.
    pub fn new(entity_type: EntityType, id: String) -> (r: EntityId)
        ensures
            r.entity_type == entity_type,
            r.id == id,
    {
        EntityId { entity_type, id }
    }

    /// An identifier of type `Node` for the given id text.
    pub fn from_string(s: String) -> (r: EntityId)
        ensures
            r.entity_type@ == EntityTypeModel::Node,
            r.id == s,
    {
        EntityId { entity_type: EntityType::Node, id: s }
    }

    /// The display text of the identifier: its id text.
    pub fn to_string(&self) -> (s: String)
        ensures
            s@ == self.id@,
    {
        self.id.clone()
    }

    /// Whether two identifiers name the same entity.
    pub fn same_as(&self, other: &EntityId) -> (r: bool)
        ensures
            r == (self@ == other@),
    {
        self.entity_type.same_as(&other.entity_type) && self.id == other.id
    }
}

// ---------------------------------------------------------------------------
// Timestamps and temporal ranges
// ---------------------------------------------------------------------------

/// A point on the time line.
#[derive(Clone, Copy, Debug, PartialEq, Eq, Structural)]
pub struct Timestamp(pub DateTimeUtc);

impl Timestamp {
    /// The current time.
    pub fn now() -> (t: Timestamp)
        ensures
            crate::time::MIN_UTC <= t.0 <= crate::time::MAX_UTC,
            (i64::MIN as int) * crate::time::NANOS_PER_SECOND <= t.0 < (i64::MAX as int)
                * crate::time::NANOS_PER_SECOND + 2_000_000_000,
    {
        Timestamp(utc_now())
    }

    /// A timestamp for the given instant.
    pub fn from_datetime(dt: DateTimeUtc) -> (t: Timestamp)
        ensures
            t.0 == dt,
    {
        Timestamp(dt)
    }
}

/// A temporal range; both ends inclusive, a missing end is unbounded.
#[derive(Clone, Copy, Debug, PartialEq, Eq, Structural)]
pub struct TemporalRange {
    /// Start time (inclusive).
    pub start: Option<Timestamp>,
    /// End time (inclusive).
    pub end: Option<Timestamp>,
}

/// Whether the instant `t` lies within the range `r`.
pub open spec fn range_contains(r: TemporalRange, t: int) -> bool {
    &&& match r.start {
        Some(s) => s.0 <= t,
        None => true,
    }
    &&& match r.end {
        Some(e) => t <= e.0,
        None => true,
    }
}

/// A range whose start, when both ends are present, is not after its end.
pub open spec fn range_ordered(r: TemporalRange) -> bool {
    match (r.start, r.end) {
        (Some(s), Some(e)) => s.0 <= e.0,
        _ => true,
    }
}

/// Whether two ranges share at least one instant (ends inclusive).
pub open spec fn ranges_overlap(a: TemporalRange, b: TemporalRange) -> bool {
    &&& match (a.start, b.end) {
        (Some(s), Some(e)) => s.0 <= e.0,
        _ => true,
    }
    &&& match (a.end, b.start) {
        (Some(e), Some(s)) => e.0 >= s.0,
        _ => true,
    }
}

impl TemporalRange {
    /// Creates a range.
    pub fn new(start: Option<Timestamp>, end: Option<Timestamp>) -> (r: TemporalRange)
        ensures
            r.start == start,
            r.end == end,
    {
        TemporalRange { start, end }
    }

    /// A range from the current time onwards, with no end.
    pub fn from_now() -> (r: TemporalRange)
        ensures
            r.start.is_some(),
            r.end.is_none(),
    {
        TemporalRange { start: Some(Timestamp::now()), end: None }
    }

    /// The range without bounds on either side.
    pub fn unbounded() -> (r: TemporalRange)
        ensures
            r.start.is_none(),
            r.end.is_none(),
    {
        TemporalRange { start: None, end: None }
    }

    /// Whether `timestamp` lies within this range.
    pub fn contains(&self, timestamp: &DateTimeUtc) -> (r: bool)
        ensures
            r == range_contains(*self, *timestamp as int),
    {
        let after_start = match &self.start {
            Some(start) => *timestamp >= start.0,
            None => true,
        };
        let before_end = match &self.end {
            Some(end) => *timestamp <= end.0,
            None => true,
        };
        after_start && before_end
    }

    /// Whether this range and `other` share an instant.
    pub fn overlaps(&self, other: &TemporalRange) -> (r: bool)
        ensures
            r == ranges_overlap(*self, *other),
    {
        let start_after = match (&self.start, &other.end) {
            (Some(start), Some(end)) => start.0 <= end.0,
            _ => true,
        };
        let end_before = match (&self.end, &other.start) {
            (Some(end), Some(start)) => end.0 >= start.0,
            _ => true,
        };
        start_after && end_before
    }
}

/// Overlap of temporal ranges is symmetric.
pub proof fn lemma_ranges_overlap_symmetric(a: TemporalRange, b: TemporalRange)
    ensures
        ranges_overlap(a, b) == ranges_overlap(b, a),
{
}

/// Two ordered ranges overlap exactly when some instant lies in both.
pub proof fn lemma_ranges_overlap_iff_common_instant(a: TemporalRange, b: TemporalRange)
    requires
        range_ordered(a),
        range_ordered(b),
    ensures
        ranges_overlap(a, b) <==> exists|t: int| range_contains(a, t) && range_contains(b, t),
{
    if ranges_overlap(a, b) {
        let lo: int = match (a.start, b.start) {
            (Some(x), Some(y)) => if x.0 >= y.0 { x.0 as int } else { y.0 as int },
            (Some(x), None) => x.0 as int,
            (None, Some(y)) => y.0 as int,
            (None, None) => match (a.end, b.end) {
                (Some(x), Some(y)) => if x.0 <= y.0 { x.0 as int } else { y.0 as int },
                (Some(x), None) => x.0 as int,
                (None, Some(y)) => y.0 as int,
                (None, None) => 0,
            },
        };
        assert(range_contains(a, lo) && range_contains(b, lo));
    }
}

/// Every range contains its own start and end, when it has them and they are in order.
pub proof fn lemma_range_contains_own_bounds(r: TemporalRange)
    requires
        range_ordered(r),
    ensures
        r.start.is_some() ==> range_contains(r, r.start.unwrap().0 as int),
        r.end.is_some() ==> range_contains(r, r.end.unwrap().0 as int),
{
}

// ---------------------------------------------------------------------------
// Properties, nodes and edges
// ---------------------------------------------------------------------------

/// Properties associated with nodes and edges: named JSON values, each name
/// at most once.
#[derive(Debug)]
pub struct Properties(pub Vec<(String, JsonValue)>);

impl Properties {
    /// No properties.
    pub fn new() -> (p: Properties)
        ensures
            p.0@.len() == 0,
    {
        Properties(Vec::new())
    }

    /// The members of a JSON object as properties; any other value gives no properties.
    pub fn from_json(value: JsonValue) -> (r: Result<Properties, Error>)
        ensures
            r is Ok,
            match value {
                JsonValue::Object(members) => r.unwrap().0 == members,
                _ => r.unwrap().0@.len() == 0,
            },
    {
        match value {
            JsonValue::Object(members) => Ok(Properties(members)),
            _ => Ok(Properties(Vec::new())),
        }
    }

    /// The value of property `key`, if present.
    pub fn get(&self, key: &str) -> (r: Option<&JsonValue>)
        ensures
            match r {
                Some(v) => exists|i: int| first_key_at(self.0@, key@, i) && *v == self.0@[i].1,
                None => lacks_key(self.0@, key@),
            },
    {
        match crate::json::find_member(&self.0, key) {
            Some(i) => Some(&self.0[i].1),
            None => None,
        }
    }

    /// Sets property `key` to `value`, replacing any earlier value.
    pub fn insert(&mut self, key: String, value: JsonValue)
        ensures
            member_set(old(self).0@, key@, value, final(self).0@),
    {
        insert_member(&mut self.0, key, value);
    }
}

/// A node in the temporal knowledge graph.
#[derive(Debug)]
pub struct Node {
    pub id: NodeId,
    pub entity_type: EntityType,
    pub label: String,
    pub properties: Properties,
    pub valid_time: TemporalRange,
    pub transaction_time: TemporalRange,
}

impl Node {
    /// The node's identifier.
    pub fn id(&self) -> (r: &NodeId)
        ensures
            *r == self.id,
    {
        &self.id
    }

    /// The node's label.
    pub fn label(&self) -> (r: &str)
        ensures
            r@ == self.label@,
    {
        self.label.as_str()
    }

    /// The node's properties.
    pub fn properties(&self) -> (r: &Properties)
        ensures
            *r == self.properties,
    {
        &self.properties
    }
}

/// An edge in the temporal knowledge graph.
#[derive(Debug)]
pub struct Edge {
    pub id: EdgeId,
    pub source_id: NodeId,
    pub target_id: NodeId,
    pub label: String,
    pub properties: Properties,
    pub valid_time: TemporalRange,
    pub transaction_time: TemporalRange,
}

impl Edge {
    /// The edge's identifier.
    pub fn id(&self) -> (r: &EdgeId)
        ensures
            *r == self.id,
    {
        &self.id
    }

    /// The edge's label.
    pub fn label(&self) -> (r: &str)
        ensures
            r@ == self.label@,
    {
        self.label.as_str()
    }

    /// The edge's properties.
    pub fn properties(&self) -> (r: &Properties)
        ensures
            *r == self.properties,
    {
        &self.properties
    }

    /// The node the edge leaves.
    pub fn out_v(&self) -> (r: &NodeId)
        ensures
            *r == self.source_id,
    {
        &self.source_id
    }

    /// The node the edge enters.
    pub fn in_v(&self) -> (r: &NodeId)
        ensures
            *r == self.target_id,
    {
        &self.target_id
    }
}

/// Represents a temporal operation type.
#[derive(Clone, Copy, Debug)]
pub enum TemporalOperation {
    /// Query at a specific point in time.
    At(DateTimeUtc),
    /// Query between two points in time.
    Between(DateTimeUtc, DateTimeUtc),
    /// Query the evolution over a time range.
    Evolution(TemporalRange),
    /// Query the latest state.
    Latest,
}

/// A temporal query result: data, the instant it is valid at, and its version.
#[derive(Debug)]
pub struct TemporalQueryResult<T> {
    /// The query result data.
    pub data: T,
    /// The timestamp at which this result is valid.
    pub timestamp: Timestamp,
    /// The version identifier.
    pub version_id: u128,
}

impl<T> TemporalQueryResult<T> {
    /// Creates a result.
    pub fn new(data: T, timestamp: Timestamp, version_id: u128) -> (r: Self)
        ensures
            r.data == data,
            r.timestamp == timestamp,
            r.version_id == version_id,
    {
        TemporalQueryResult { data, timestamp, version_id }
    }

    /// The data.
    pub fn data(&self) -> (r: &T)
        ensures
            *r == self.data,
    {
        &self.data
    }

    /// The timestamp.
    pub fn timestamp(&self) -> (r: &Timestamp)
        ensures
            *r == self.timestamp,
    {
        &self.timestamp
    }

    /// The version identifier.
    pub fn version_id(&self) -> (r: &u128)
        ensures
            *r == self.version_id,
    {
        &self.version_id
    }
}

/// Metadata about a temporal entity.
#[derive(Debug)]
pub struct TemporalMetadata {
    /// Entity ID.
    pub entity_id: EntityId,
    /// Creation time.
    pub created_at: Timestamp,
    /// Last modification time.
    pub modified_at: Timestamp,
    /// Version identifier.
    pub version_id: u128,
    /// Valid time range.
    pub valid_time: TemporalRange,
}

impl TemporalMetadata {
    /// New metadata, created and modified now, with a fresh version.
    pub fn new(entity_id: EntityId, valid_time: TemporalRange) -> (m: TemporalMetadata)
        ensures
            m.entity_id == entity_id,
            m.valid_time == valid_time,
            m.created_at == m.modified_at,
            is_random_uuid(m.version_id),
    {
        let now = Timestamp::now();
        TemporalMetadata { entity_id, created_at: now, modified_at: now, version_id: new_uuid(), valid_time }
    }

    /// Marks a modification: a new modification time and a fresh version; the
    /// entity, creation time and valid time stay.
    pub fn touch(&mut self)
        ensures
            final(self).entity_id == old(self).entity_id,
            final(self).created_at == old(self).created_at,
            final(self).valid_time == old(self).valid_time,
            crate::time::MIN_UTC <= final(self).modified_at.0 <= crate::time::MAX_UTC,
            is_random_uuid(final(self).version_id),
            (i64::MIN as int) * crate::time::NANOS_PER_SECOND <= final(self).modified_at.0 < (
            i64::MAX as int) * crate::time::NANOS_PER_SECOND + 2_000_000_000,
    {
        self.modified_at = Timestamp::now();
        self.version_id = new_uuid();
    }
}

/// Graph-store identifier type.
#[derive(Debug)]
pub struct GID(pub String);

impl GID {
    /// The identifier text.
    pub fn as_str(&self) -> (r: &str)
        ensures
            r@ == self.0@,
    {
        self.0.as_str()
    }
}

/// Transaction-time and valid-time intervals of a record.
#[derive(Clone, Copy, Debug)]
pub struct TimeRange {
    pub transaction_time: (DateTimeUtc, DateTimeUtc),
    pub valid_time: (DateTimeUtc, DateTimeUtc),
}

impl TimeRange {
    /// Creates the pair of intervals.
    pub fn new(transaction_time: (DateTimeUtc, DateTimeUtc), valid_time: (DateTimeUtc, DateTimeUtc)) -> (r: TimeRange)
        ensures
            r.transaction_time == transaction_time,
            r.valid_time == valid_time,
    {
        TimeRange { transaction_time, valid_time }
    }
}

/// A node as the graph store hands it over.
#[derive(Debug)]
pub struct GNode(pub Node);

/// An edge as the graph store hands it over.
#[derive(Debug)]
pub struct GEdge(pub Edge);

impl GNode {
    /// The node.
    pub fn into_node(self) -> (n: Node)
        ensures
            n == self.0,
    {
        self.0
    }
}

impl GEdge {
    /// The edge.
    pub fn into_edge(self) -> (e: Edge)
        ensures
            e == self.0,
    {
        self.0
    }
}

} // verus!
