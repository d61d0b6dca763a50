//! The decisions of the DynamoDB-backed temporal store: which queries it
//! sends, which items it writes, and how it reads what comes back.  The
//! requests themselves are sent by the caller.

use vstd::prelude::*;
use crate::error::Error;
use crate::json::{JsonValue, JsonModel, clone_json, members_model, lemma_members_model_index};
use crate::text::{int_text, int_to_string, concat2, texts};
use crate::time::{DateTimeUtc, spec_unix_seconds, unix_seconds, rfc3339_of, format_rfc3339};
use crate::types::{
    EntityId, EntityType, TemporalRange, entity_type_text, uuid_text, uuid_to_string, uuid_parse,
    parse_uuid, new_uuid,
};
use super::consistency::ConsistencyChecker;
use super::query::{OptimizedQuery, QueryModel};
use super::query_builder::{PropertyOperator, PropertyFilter, RelationshipFilter, TemporalQueryBuilder};

verus! {

/// A DynamoDB attribute value as the store writes and reads it: a string or
/// a number (held as its numeral text).
#[derive(Debug, Clone)]
pub enum AttributeText {
    S(String),
    N(String),
}

/// The content of an attribute value.
pub ghost enum AttributeModel {
    S(Seq<char>),
    N(Seq<char>),
}

impl View for AttributeText {
    type V = AttributeModel;

    open spec fn view(&self) -> AttributeModel {
        match self {
            AttributeText::S(s) => AttributeModel::S(s@),
            AttributeText::N(n) => AttributeModel::N(n@),
        }
    }
}

/// The contents of a list of named attributes.
pub open spec fn attributes_model(v: Seq<(String, AttributeText)>) -> Seq<(Seq<char>, AttributeModel)> {
    v.map_values(|a: (String, AttributeText)| (a.0@, a.1@))
}

/// The temporal store on one table.
#[derive(Debug)]
pub struct DynamoDBTemporal {
    /// Table name.
    table_name: String,
    /// Consistency checker.
    checker: ConsistencyChecker,
}

/// The condition comparing property placeholder `name` with value
/// placeholder `value`.
pub open spec fn condition_text(name: Seq<char>, op: PropertyOperator, value: Seq<char>) -> Seq<char> {
    match op {
        PropertyOperator::Equal => name + " = "@ + value,
        PropertyOperator::NotEqual => name + " <> "@ + value,
        PropertyOperator::GreaterThan => name + " > "@ + value,
        PropertyOperator::GreaterThanOrEqual => name + " >= "@ + value,
        PropertyOperator::LessThan => name + " < "@ + value,
        PropertyOperator::LessThanOrEqual => name + " <= "@ + value,
        PropertyOperator::Contains => "contains("@ + name + ", "@ + value + ")"@,
        PropertyOperator::StartsWith => "begins_with("@ + name + ", "@ + value + ")"@,
        PropertyOperator::EndsWith => "ends_with("@ + name + ", "@ + value + ")"@,
        PropertyOperator::In => name + " IN ("@ + value + ")"@,
        PropertyOperator::NotIn => "NOT "@ + name + " IN ("@ + value + ")"@,
    }
}

/// Whether a property operator compares values by order or equality.
pub open spec fn is_comparison(op: PropertyOperator) -> bool {
    match op {
        PropertyOperator::Equal | PropertyOperator::NotEqual | PropertyOperator::GreaterThan
        | PropertyOperator::GreaterThanOrEqual | PropertyOperator::LessThan
        | PropertyOperator::LessThanOrEqual => true,
        _ => false,
    }
}

/// What a comparison operator asks of a stored value `a` against the filter's
/// value `b`.
pub open spec fn operator_holds(op: PropertyOperator, a: int, b: int) -> bool {
    match op {
        PropertyOperator::Equal => a == b,
        PropertyOperator::NotEqual => a != b,
        PropertyOperator::GreaterThan => a > b,
        PropertyOperator::GreaterThanOrEqual => a >= b,
        PropertyOperator::LessThan => a < b,
        PropertyOperator::LessThanOrEqual => a <= b,
        _ => false,
    }
}

/// What a comparator of DynamoDB's condition expressions asks of its left
/// operand `a` and right operand `b`; `None` for a text that is no comparator.
pub open spec fn comparator_holds(sym: Seq<char>, a: int, b: int) -> Option<bool> {
    if sym.len() == 1 && sym[0] == '=' {
        Some(a == b)
    } else if sym.len() == 2 && sym[0] == '<' && sym[1] == '>' {
        Some(a != b)
    } else if sym.len() == 1 && sym[0] == '<' {
        Some(a < b)
    } else if sym.len() == 2 && sym[0] == '<' && sym[1] == '=' {
        Some(a <= b)
    } else if sym.len() == 1 && sym[0] == '>' {
        Some(a > b)
    } else if sym.len() == 2 && sym[0] == '>' && sym[1] == '=' {
        Some(a >= b)
    } else {
        None
    }
}

/// The query for the versions of one entity, by the text of its identifier.
pub open spec fn entity_query_model(table: Seq<char>, id: Seq<char>) -> QueryModel {
    QueryModel {
        table_name: table,
        key_condition: Some("entity_id = :entity_id"@),
        filter_expression: None,
        expression_values: Some(JsonModel::Object(seq![(":entity_id"@, JsonModel::Str(id))])),
        scan_direction: None,
        limit: None,
    }
}

/// The instant a filtered query reports its results at: the point in time,
/// or else the start of the span.
pub open spec fn query_instant(b: TemporalQueryBuilder) -> Option<DateTimeUtc> {
    match b.point_in_time {
        Some(t) => Some(t),
        None => match b.time_range {
            Some((start, _)) => Some(start),
            None => None,
        },
    }
}

/// `a`, `b` and `c`, `d`, `e` in a row.
fn concat5(a: &str, b: &str, c: &str, d: &str, e: &str) -> (s: String)
    ensures
        s@ == a@ + b@ + c@ + d@ + e@,
{
    let mut s = String::from_str(a);
    s.append(b);
    s.append(c);
    s.append(d);
    s.append(e);
    s
}

impl DynamoDBTemporal {
    /// The table name.
    pub closed spec fn table(&self) -> Seq<char> {
        self.table_name@
    }

    /// The ranges the store's checker has validated.
    pub closed spec fn validated(&self) -> Seq<(EntityId, DateTimeUtc, DateTimeUtc)> {
        self.checker@
    }

    /// A store on `table_name`.
    pub fn new(table_name: String) -> (s: DynamoDBTemporal)
        ensures
            s.table() == table_name@,
            s.validated().len() == 0,
    {
        DynamoDBTemporal { table_name, checker: ConsistencyChecker::new() }
    }

    /// The table name.
    pub fn table_name(&self) -> (r: &str)
        ensures
            r@ == self.table(),
    {
        self.table_name.as_str()
    }

    /// The consistency checker of the store.
    pub fn checker(&self) -> (r: &ConsistencyChecker)
        ensures
            r@ == self.validated(),
    {
        &self.checker
    }

    /// The condition comparing `property_name` with `property_value` by
    /// `operator`.
    pub fn build_condition(&self, property_name: &str, operator: &PropertyOperator, property_value: &str) -> (s:
        String)
        ensures
            s@ == condition_text(property_name@, *operator, property_value@),
    {
        let n = property_name;
        let v = property_value;
        let s = match operator {
            PropertyOperator::Equal => concat5(n, " = ", v, "", ""),
            PropertyOperator::NotEqual => concat5(n, " <> ", v, "", ""),
            PropertyOperator::GreaterThan => concat5(n, " > ", v, "", ""),
            PropertyOperator::GreaterThanOrEqual => concat5(n, " >= ", v, "", ""),
            PropertyOperator::LessThan => concat5(n, " < ", v, "", ""),
            PropertyOperator::LessThanOrEqual => concat5(n, " <= ", v, "", ""),
            PropertyOperator::Contains => concat5("contains(", n, ", ", v, ")"),
            PropertyOperator::StartsWith => concat5("begins_with(", n, ", ", v, ")"),
            PropertyOperator::EndsWith => concat5("ends_with(", n, ", ", v, ")"),
            PropertyOperator::In => concat5(n, " IN (", v, ")", ""),
            PropertyOperator::NotIn => {
                let mut s = concat5("NOT ", n, " IN (", v, ")");
                s
            },
        };
        proof {
            reveal_strlit("");
        }
        assert(s@ =~= condition_text(property_name@, *operator, property_value@));
        s
    }

    /// A query on the store's table with the key condition, filter and
    /// values of `query`, and nothing else.
    pub fn build_relationship_query(&self, query: &OptimizedQuery) -> (r: Result<OptimizedQuery, Error>)
        ensures
            r is Ok,
            r.unwrap()@ == (QueryModel {
                table_name: self.table(),
                key_condition: query@.key_condition,
                filter_expression: query@.filter_expression,
                expression_values: query@.expression_values,
                scan_direction: None,
                limit: None,
            }),
    {
        let mut q = OptimizedQuery::new(self.table_name.clone());
        match &query.key_condition {
            Some(k) => {
                q = q.with_key_condition(k.clone());
            },
            None => {},
        }
        match &query.filter_expression {
            Some(f) => {
                q = q.with_filter(f.clone());
            },
            None => {},
        }
        match &query.expression_values {
            Some(v) => {
                q = q.with_values(clone_json(v));
            },
            None => {},
        }
        Ok(q)
    }

    /// The query for the versions of the entity whose identifier reads `id`.
    pub fn entity_query(&self, id: &str) -> (q: OptimizedQuery)
        ensures
            q@ == entity_query_model(self.table(), id@),
    {
        let m = vec![(String::from_str(":entity_id"), JsonValue::Str(String::from_str(id)))];
        proof {
            lemma_members_model_index(m@);
            assert(members_model(m@) =~= seq![(":entity_id"@, JsonModel::Str(id@))]);
        }
        OptimizedQuery::new(self.table_name.clone()).with_key_condition(
            String::from_str("entity_id = :entity_id"),
        ).with_values(JsonValue::Object(m))
    }
}

/// The identifiers a relationship lookup visits: for each related item its
/// source, then its target, where present.
pub open spec fn lookup_ids(items: Seq<(Option<String>, Option<String>)>) -> Seq<Seq<char>>
    decreases items.len(),
{
    if items.len() == 0 {
        Seq::empty()
    } else {
        let last = items.last();
        lookup_ids(items.drop_last()) + match last.0 {
            Some(s) => seq![s@],
            None => Seq::empty(),
        } + match last.1 {
            Some(t) => seq![t@],
            None => Seq::empty(),
        }
    }
}

/// The error of a filter query whose builder lacks an entity or a time.
pub open spec fn filter_refusal(b: TemporalQueryBuilder, what: Seq<char>) -> Option<Seq<char>> {
    if b.entity_id is None {
        Some("Entity ID is required for "@ + what)
    } else if query_instant(b) is None {
        Some("Either point_in_time or time_range must be specified"@)
    } else {
        None
    }
}

/// The query of a property filter on the builder's entity.
pub open spec fn property_query_model(table: Seq<char>, b: TemporalQueryBuilder, f: PropertyFilter) -> QueryModel {
    QueryModel {
        table_name: table,
        key_condition: Some("entity_id = :entity_id"@),
        filter_expression: Some(
            condition_text("#"@ + f.property_name@, f.operator, ":propertyValue"@),
        ),
        expression_values: Some(
            JsonModel::Object(
                seq![
                    (":entity_id"@, JsonModel::Str(b.entity_id.unwrap().id@)),
                    (":propertyValue"@, f.value@),
                ],
            ),
        ),
        scan_direction: None,
        limit: None,
    }
}

/// The query for the versions of an entity that start within a range.
pub open spec fn evolution_query_model(table: Seq<char>, entity_id: EntityId, range: TemporalRange) -> QueryModel {
    QueryModel {
        table_name: table,
        key_condition: Some("entity_id = :eid AND valid_time_start BETWEEN :start AND :end"@),
        filter_expression: None,
        expression_values: Some(
            JsonModel::Object(
                seq![
                    (":eid"@, JsonModel::Str(entity_id.id@)),
                    (":start"@, JsonModel::Str(int_text(spec_unix_seconds(range.start.unwrap().0 as int)))),
                    (":end"@, JsonModel::Str(int_text(spec_unix_seconds(range.end.unwrap().0 as int)))),
                ],
            ),
        ),
        scan_direction: Some(true),
        limit: None,
    }
}

/// The instant that stands for a missing end of a range: `now`.
pub open spec fn end_or(t: Option<crate::types::Timestamp>, now: DateTimeUtc) -> DateTimeUtc {
    match t {
        Some(x) => x.0,
        None => now,
    }
}

/// The item written for a version: its entity, its valid time in whole
/// seconds (a missing end taken as `now`), its data and its version.
pub open spec fn version_item_model(
    entity_id: EntityId,
    valid_time: TemporalRange,
    data: Seq<char>,
    version_id: u128,
    now: DateTimeUtc,
) -> Seq<(Seq<char>, AttributeModel)> {
    seq![
        ("entity_id"@, AttributeModel::S(entity_id.id@)),
        (
            "valid_time_start"@,
            AttributeModel::N(int_text(spec_unix_seconds(end_or(valid_time.start, now) as int))),
        ),
        (
            "valid_time_end"@,
            AttributeModel::N(int_text(spec_unix_seconds(end_or(valid_time.end, now) as int))),
        ),
        ("data"@, AttributeModel::S(data)),
        ("version_id"@, AttributeModel::S(uuid_text(version_id))),
    ]
}

/// The attribute value of an expression value: strings and numbers only.
pub open spec fn attribute_of(v: JsonModel) -> Option<AttributeModel> {
    match v {
        JsonModel::Str(s) => Some(AttributeModel::S(s)),
        JsonModel::Number(n) => Some(AttributeModel::N(n)),
        _ => None,
    }
}

/// The expression attribute values of the members of an object, skipping
/// the members that are neither strings nor numbers.
pub open spec fn typed_attributes(ms: Seq<(Seq<char>, JsonModel)>) -> Seq<(Seq<char>, AttributeModel)>
    decreases ms.len(),
{
    if ms.len() == 0 {
        Seq::empty()
    } else {
        let rest = typed_attributes(ms.drop_last());
        match attribute_of(ms.last().1) {
            Some(a) => rest.push((ms.last().0, a)),
            None => rest,
        }
    }
}

/// The expression attribute values of the members of an object, each as a
/// string: a string member as itself, any other as the empty string.
pub open spec fn string_attributes_of(ms: Seq<(Seq<char>, JsonModel)>) -> Seq<(Seq<char>, AttributeModel)> {
    ms.map_values(
        |m: (Seq<char>, JsonModel)|
            (
                m.0,
                AttributeModel::S(
                    match m.1 {
                        JsonModel::Str(s) => s,
                        _ => Seq::empty(),
                    },
                ),
            ),
    )
}

impl DynamoDBTemporal {
    /// The queries that look up the entities related by `items` (their
    /// source and target identifiers), in order.
    pub fn relationship_lookups(&self, filter: &RelationshipFilter, items: &Vec<(Option<String>, Option<String>)>) -> (r:
        Vec<OptimizedQuery>)
        ensures
            r@.len() == lookup_ids(items@).len(),
            forall|i: int|
                0 <= i < r@.len() ==> (#[trigger] r@[i])@ == entity_query_model(
                    self.table(),
                    lookup_ids(items@)[i],
                ),
    {
        let mut r: Vec<OptimizedQuery> = Vec::new();
        let mut i: usize = 0;
        while i < items.len()
            invariant
                0 <= i <= items@.len(),
                r@.len() == lookup_ids(items@.subrange(0, i as int)).len(),
                forall|k: int|
                    0 <= k < r@.len() ==> (#[trigger] r@[k])@ == entity_query_model(
                        self.table(),
                        lookup_ids(items@.subrange(0, i as int))[k],
                    ),
            decreases items@.len() - i,
        {
            let ghost before = lookup_ids(items@.subrange(0, i as int));
            let ghost r0 = r@;
            proof {
                assert(items@.subrange(0, i + 1).drop_last() =~= items@.subrange(0, i as int));
            }
            let entity_type = match &filter.target_entity_type {
                Some(t) => t.clone(),
                None => EntityType::Node,
            };
            match &items[i].0 {
                Some(source) => {
                    let id = EntityId::new(entity_type.clone(), source.clone());
                    r.push(self.entity_query(id.to_string().as_str()));
                },
                None => {},
            }
            match &items[i].1 {
                Some(target) => {
                    let id = EntityId::new(entity_type, target.clone());
                    r.push(self.entity_query(id.to_string().as_str()));
                },
                None => {},
            }
            proof {
                let after = lookup_ids(items@.subrange(0, i + 1));
                assert(items@.subrange(0, i + 1).last() == items@[i as int]);
                assert forall|k: int| 0 <= k < r@.len() implies (#[trigger] r@[k])@ == entity_query_model(
                    self.table(),
                    after[k],
                ) by {
                    if k < r0.len() {
                        assert(r@[k] == r0[k]);
                        assert(after[k] == before[k]);
                    }
                }
            }
            i = i + 1;
        }
        assert(items@.subrange(0, items@.len() as int) =~= items@);
        r
    }

    /// The instant the results of a relationship filter are reported at;
    /// refused with `InvalidQueryFormat` when the builder names no entity or
    /// no time.
    pub fn relationship_filter_instant(&self, builder: &TemporalQueryBuilder) -> (r: Result<DateTimeUtc, Error>)
        ensures
            match filter_refusal(*builder, "relationship filters"@) {
                Some(m) => r matches Err(Error::InvalidQueryFormat(t)) && t@ == m,
                None => r == Ok::<DateTimeUtc, Error>(query_instant(*builder).unwrap()),
            },
    {
        proof {
            reveal_strlit("Entity ID is required for ");
            reveal_strlit("relationship filters");
            reveal_strlit("Entity ID is required for relationship filters");
            assert("Entity ID is required for "@ + "relationship filters"@
                =~= "Entity ID is required for relationship filters"@);
        }
        filter_instant(builder, "Entity ID is required for relationship filters")
    }

    /// The query of a property filter on the builder's entity, and the
    /// instant its results are reported at; refused with
    /// `InvalidQueryFormat` when the builder names no entity or no time.
    pub fn property_filter_query(&self, builder: &TemporalQueryBuilder, filter: &PropertyFilter) -> (r: Result<
        (OptimizedQuery, DateTimeUtc),
        Error,
    >)
        ensures
            match filter_refusal(*builder, "property filters"@) {
                Some(m) => r matches Err(Error::InvalidQueryFormat(t)) && t@ == m,
                None => r matches Ok((q, t)) && q@ == property_query_model(self.table(), *builder, *filter)
                    && t == query_instant(*builder).unwrap(),
            },
    {
        proof {
            reveal_strlit("Entity ID is required for ");
            reveal_strlit("property filters");
            reveal_strlit("Entity ID is required for property filters");
            assert("Entity ID is required for "@ + "property filters"@
                =~= "Entity ID is required for property filters"@);
        }
        let t = match filter_instant(builder, "Entity ID is required for property filters") {
            Ok(t) => t,
            Err(e) => {
                return Err(e);
            },
        };
        let id = match &builder.entity_id {
            Some(id) => id.to_string(),
            None => String::new(),
        };
        let name = concat2("#", filter.property_name.as_str());
        let condition = self.build_condition(name.as_str(), &filter.operator, ":propertyValue");
        let ghost value = filter.value@;
        let m = vec![
            (String::from_str(":entity_id"), JsonValue::Str(id)),
            (String::from_str(":propertyValue"), clone_json(&filter.value)),
        ];
        proof {
            lemma_members_model_index(m@);
            assert(members_model(m@) =~= seq![
                (":entity_id"@, JsonModel::Str(builder.entity_id.unwrap().id@)),
                (":propertyValue"@, value),
            ]);
        }
        let q = OptimizedQuery::new(self.table_name.clone()).with_key_condition(
            String::from_str("entity_id = :entity_id"),
        ).with_filter(condition).with_values(JsonValue::Object(m));
        Ok((q, t))
    }

    /// The query for the versions of `entity_id` that start within `range`;
    /// refused with `InvalidTemporalRange` when the range lacks its start or
    /// its end.
    pub fn evolution_query(&self, entity_id: &EntityId, range: &TemporalRange) -> (r: Result<OptimizedQuery, Error>)
        ensures
            range.start is None ==> (r matches Err(Error::InvalidTemporalRange(m)) && m@
                == "Missing range start"@),
            range.start is Some && range.end is None ==> (r matches Err(
                Error::InvalidTemporalRange(m),
            ) && m@ == "Missing range end"@),
            range.start is Some && range.end is Some ==> (r matches Ok(q) && q@
                == evolution_query_model(self.table(), *entity_id, *range)),
    {
        let start = match &range.start {
            Some(s) => s.0,
            None => {
                return Err(Error::InvalidTemporalRange(String::from_str("Missing range start")));
            },
        };
        let end = match &range.end {
            Some(e) => e.0,
            None => {
                return Err(Error::InvalidTemporalRange(String::from_str("Missing range end")));
            },
        };
        let m = vec![
            (String::from_str(":eid"), JsonValue::Str(entity_id.id.clone())),
            (String::from_str(":start"), JsonValue::Str(int_to_string(unix_seconds(start)))),
            (String::from_str(":end"), JsonValue::Str(int_to_string(unix_seconds(end)))),
        ];
        proof {
            lemma_members_model_index(m@);
            assert(members_model(m@) =~= evolution_query_model(self.table(), *entity_id, *range).expression_values.unwrap()->Object_0);
        }
        Ok(
            OptimizedQuery::new(self.table_name.clone()).with_key_condition(
                String::from_str("entity_id = :eid AND valid_time_start BETWEEN :start AND :end"),
            ).with_values(JsonValue::Object(m)).with_scan_direction(true),
        )
    }
}

/// The instant of a filtered query, or the refusal naming what it lacks.
fn filter_instant(builder: &TemporalQueryBuilder, missing_entity: &str) -> (r: Result<DateTimeUtc, Error>)
    ensures
        builder.entity_id is None ==> (r matches Err(Error::InvalidQueryFormat(t)) && t@
            == missing_entity@),
        builder.entity_id is Some && query_instant(*builder) is None ==> (r matches Err(
            Error::InvalidQueryFormat(t),
        ) && t@ == "Either point_in_time or time_range must be specified"@),
        builder.entity_id is Some && query_instant(*builder) is Some ==> r == Ok::<
            DateTimeUtc,
            Error,
        >(query_instant(*builder).unwrap()),
{
    if builder.entity_id.is_none() {
        return Err(Error::InvalidQueryFormat(String::from_str(missing_entity)));
    }
    match builder.point_in_time {
        Some(t) => Ok(t),
        None => match builder.time_range {
            Some((start, _)) => Ok(start),
            None => Err(
                Error::InvalidQueryFormat(
                    String::from_str("Either point_in_time or time_range must be specified"),
                ),
            ),
        },
    }
}

impl DynamoDBTemporal {
    /// Accepts a range to store only when it has both a start and an end;
    /// otherwise refused with `InvalidTemporalRange`.
    pub fn check_store_range(&self, temporal_range: &TemporalRange) -> (r: Result<(), Error>)
        ensures
            r is Ok <==> (temporal_range.start is Some && temporal_range.end is Some),
            r is Err ==> (r matches Err(Error::InvalidTemporalRange(m)) && m@
                == "Both start and end times must be present"@),
    {
        if temporal_range.start.is_none() || temporal_range.end.is_none() {
            return Err(
                Error::InvalidTemporalRange(String::from_str("Both start and end times must be present")),
            );
        }
        Ok(())
    }

    /// The item written for a version of `entity_id` with serialized `data`
    /// and identifier `version_id`; a missing end of the valid time is taken
    /// as `now`.
    pub fn version_item(
        &self,
        entity_id: &EntityId,
        valid_time: &TemporalRange,
        data: String,
        version_id: u128,
        now: DateTimeUtc,
    ) -> (r: Vec<(String, AttributeText)>)
        ensures
            attributes_model(r@) == version_item_model(*entity_id, *valid_time, data@, version_id, now),
    {
        let start = match &valid_time.start {
            Some(t) => t.0,
            None => now,
        };
        let end = match &valid_time.end {
            Some(t) => t.0,
            None => now,
        };
        let ghost d = data@;
        let r = vec![
            (String::from_str("entity_id"), AttributeText::S(entity_id.to_string())),
            (String::from_str("valid_time_start"), AttributeText::N(int_to_string(unix_seconds(start)))),
            (String::from_str("valid_time_end"), AttributeText::N(int_to_string(unix_seconds(end)))),
            (String::from_str("data"), AttributeText::S(data)),
            (String::from_str("version_id"), AttributeText::S(uuid_to_string(version_id))),
        ];
        assert(attributes_model(r@) =~= version_item_model(*entity_id, *valid_time, d, version_id, now));
        r
    }
}

/// The expression attribute values of a query's values: for an object, its
/// string and number members (others skipped); nothing for any other value.
pub fn typed_expression_attributes(values: &JsonValue) -> (r: Option<Vec<(String, AttributeText)>>)
    ensures
        match values@ {
            JsonModel::Object(ms) => r matches Some(v) && attributes_model(v@) == typed_attributes(ms),
            _ => r is None,
        },
{
    match values {
        JsonValue::Object(members) => {
            let ghost ms = members_model(members@);
            proof {
                lemma_members_model_index(members@);
            }
            let mut out: Vec<(String, AttributeText)> = Vec::new();
            let mut i: usize = 0;
            while i < members.len()
                invariant
                    0 <= i <= members@.len(),
                    ms == members_model(members@),
                    ms.len() == members@.len(),
                    forall|k: int| 0 <= k < members@.len() ==> #[trigger] ms[k] == (members@[k].0@, members@[k].1@),
                    attributes_model(out@) == typed_attributes(ms.subrange(0, i as int)),
                decreases members@.len() - i,
            {
                proof {
                    assert(ms.subrange(0, i + 1).drop_last() =~= ms.subrange(0, i as int));
                    assert(ms.subrange(0, i + 1).last() == ms[i as int]);
                }
                let ghost before = out@;
                match &members[i].1 {
                    JsonValue::Str(s) => {
                        out.push((members[i].0.clone(), AttributeText::S(s.clone())));
                        assert(attributes_model(out@) =~= attributes_model(before).push(
                            (members@[i as int].0@, AttributeModel::S(s@)),
                        ));
                    },
                    JsonValue::Number(n) => {
                        out.push((members[i].0.clone(), AttributeText::N(n.clone())));
                        assert(attributes_model(out@) =~= attributes_model(before).push(
                            (members@[i as int].0@, AttributeModel::N(n@)),
                        ));
                    },
                    _ => {},
                }
                i = i + 1;
            }
            assert(ms.subrange(0, members@.len() as int) =~= ms);
            Some(out)
        },
        _ => None,
    }
}

/// The expression attribute values of a query's values, each as a string:
/// for an object, every member (a member that is not a string as the empty
/// string); nothing for any other value.
pub fn string_expression_attributes(values: &JsonValue) -> (r: Vec<(String, AttributeText)>)
    ensures
        match values@ {
            JsonModel::Object(ms) => attributes_model(r@) == string_attributes_of(ms),
            _ => r@.len() == 0,
        },
{
    let mut out: Vec<(String, AttributeText)> = Vec::new();
    match values {
        JsonValue::Object(members) => {
            let ghost ms = members_model(members@);
            proof {
                lemma_members_model_index(members@);
            }
            let mut i: usize = 0;
            while i < members.len()
                invariant
                    0 <= i <= members@.len(),
                    ms == members_model(members@),
                    ms.len() == members@.len(),
                    forall|k: int| 0 <= k < members@.len() ==> #[trigger] ms[k] == (members@[k].0@, members@[k].1@),
                    attributes_model(out@) == string_attributes_of(ms.subrange(0, i as int)),
                    out@.len() == i,
                decreases members@.len() - i,
            {
                let ghost before = out@;
                let text = match &members[i].1 {
                    JsonValue::Str(s) => s.clone(),
                    _ => String::new(),
                };
                let ghost tv = text@;
                out.push((members[i].0.clone(), AttributeText::S(text)));
                proof {
                    let a = attributes_model(out@);
                    let b = string_attributes_of(ms.subrange(0, i + 1));
                    assert(tv == match ms[i as int].1 {
                        JsonModel::Str(x) => x,
                        _ => Seq::<char>::empty(),
                    });
                    assert forall|k: int| 0 <= k < a.len() implies a[k] == b[k] by {
                        if k < i {
                            assert(out@[k] == before[k]);
                            assert(attributes_model(before)[k] == string_attributes_of(
                                ms.subrange(0, i as int),
                            )[k]);
                        }
                    }
                    assert(a =~= b);
                }
                i = i + 1;
            }
            assert(ms.subrange(0, members@.len() as int) =~= ms);
        },
        _ => {},
    }
    out
}

/// Adds `s` to a list of distinct texts unless it is already there.
fn add_distinct(r: &mut Vec<String>, s: &String)
    requires
        texts(old(r)@).no_duplicates(),
    ensures
        texts(final(r)@).no_duplicates(),
        texts(final(r)@).to_set() == texts(old(r)@).to_set().insert(s@),
{
    let mut i: usize = 0;
    while i < r.len()
        invariant
            0 <= i <= r@.len(),
            r@ == old(r)@,
            texts(old(r)@).no_duplicates(),
            forall|k: int| 0 <= k < i ==> r@[k]@ != s@,
        decreases r@.len() - i,
    {
        if r[i] == *s {
            proof {
                assert(texts(r@)[i as int] == s@);
                assert(texts(r@).to_set() =~= texts(r@).to_set().insert(s@));
            }
            return;
        }
        i = i + 1;
    }
    let ghost before = texts(r@);
    r.push(s.clone());
    proof {
        broadcast use vstd::seq_lib::group_seq_properties;
        assert(texts(r@) =~= before.push(s@));
        assert(!before.contains(s@)) by {
            if before.contains(s@) {
                let k = choose|k: int| 0 <= k < before.len() && before[k] == s@;
                assert(r@[k]@ == s@);
            }
        }
        assert(before.push(s@).to_set() =~= before.to_set().insert(s@));
    }
}

/// The distinct identifiers of the entities related by `items` (their source
/// and target identifiers), each once.
pub fn related_entity_ids(items: &Vec<(Option<String>, Option<String>)>) -> (r: Vec<String>)
    ensures
        texts(r@).no_duplicates(),
        texts(r@).to_set() == lookup_ids(items@).to_set(),
{
    let mut r: Vec<String> = Vec::new();
    let mut i: usize = 0;
    proof {
        assert(texts(r@) =~= Seq::<Seq<char>>::empty());
        assert(lookup_ids(items@.subrange(0, 0)) =~= Seq::<Seq<char>>::empty());
        assert(texts(r@).to_set() =~= Set::<Seq<char>>::empty());
        assert(Seq::<Seq<char>>::empty().to_set() =~= Set::<Seq<char>>::empty());
    }
    while i < items.len()
        invariant
            0 <= i <= items@.len(),
            texts(r@).no_duplicates(),
            texts(r@).to_set() == lookup_ids(items@.subrange(0, i as int)).to_set(),
        decreases items@.len() - i,
    {
        let ghost before = lookup_ids(items@.subrange(0, i as int));
        proof {
            assert(items@.subrange(0, i + 1).drop_last() =~= items@.subrange(0, i as int));
            assert(items@.subrange(0, i + 1).last() == items@[i as int]);
        }
        let ghost mid: Seq<Seq<char>> = match items@[i as int].0 {
            Some(x) => before + seq![x@],
            None => before,
        };
        match &items[i].0 {
            Some(source) => {
                add_distinct(&mut r, source);
                assert(mid.to_set() =~= before.to_set().insert(source@)) by {
                    broadcast use vstd::seq_lib::group_seq_properties;
                    assert(mid =~= before.push(source@));
                }
            },
            None => {},
        }
        match &items[i].1 {
            Some(target) => {
                add_distinct(&mut r, target);
                assert((mid + seq![target@]).to_set() =~= mid.to_set().insert(target@)) by {
                    broadcast use vstd::seq_lib::group_seq_properties;
                    assert(mid + seq![target@] =~= mid.push(target@));
                }
            },
            None => {
                assert(mid + Seq::<Seq<char>>::empty() =~= mid);
            },
        }
        proof {
            assert(lookup_ids(items@.subrange(0, i + 1)) =~= mid + match items@[i as int].1 {
                Some(t) => seq![t@],
                None => Seq::<Seq<char>>::empty(),
            });
        }
        i = i + 1;
    }
    assert(items@.subrange(0, items@.len() as int) =~= items@);
    r
}

/// The item written when a version of `entity_id` is recorded: identity,
/// valid time and transaction start in RFC 3339 notation, version and data.
pub open spec fn record_item_model(
    entity_id: EntityId,
    range: TemporalRange,
    data: Seq<char>,
    version_id: u128,
    now: DateTimeUtc,
) -> Seq<(Seq<char>, AttributeModel)> {
    seq![
        ("entity_id"@, AttributeModel::S(entity_id.id@)),
        ("entity_type"@, AttributeModel::S(entity_type_text(entity_id.entity_type@))),
        ("valid_time_start"@, AttributeModel::S(rfc3339_of(range.start.unwrap().0 as int))),
        ("valid_time_end"@, AttributeModel::S(rfc3339_of(range.end.unwrap().0 as int))),
        ("transaction_time_start"@, AttributeModel::S(rfc3339_of(now as int))),
        ("version_id"@, AttributeModel::S(uuid_text(version_id))),
        ("data"@, AttributeModel::S(data)),
    ]
}

impl DynamoDBTemporal {
    /// The item that records a version of `entity_id` valid over
    /// `temporal_range`, written at `now`; refused with
    /// `InvalidTemporalRange` when the range lacks its start or end.
    pub fn store_item(
        &self,
        entity_id: &EntityId,
        temporal_range: &TemporalRange,
        data: String,
        version_id: u128,
        now: DateTimeUtc,
    ) -> (r: Result<Vec<(String, AttributeText)>, Error>)
        ensures
            r is Ok <==> (temporal_range.start is Some && temporal_range.end is Some),
            r is Err ==> (r matches Err(Error::InvalidTemporalRange(m)) && m@
                == "Both start and end times must be present"@),
            r matches Ok(v) ==> attributes_model(v@) == record_item_model(
                *entity_id,
                *temporal_range,
                data@,
                version_id,
                now,
            ),
    {
        match self.check_store_range(temporal_range) {
            Err(e) => {
                return Err(e);
            },
            Ok(()) => {},
        }
        let start = match &temporal_range.start {
            Some(t) => t.0,
            None => now,
        };
        let end = match &temporal_range.end {
            Some(t) => t.0,
            None => now,
        };
        let ghost d = data@;
        let r = vec![
            (String::from_str("entity_id"), AttributeText::S(entity_id.to_string())),
            (String::from_str("entity_type"), AttributeText::S(entity_id.entity_type.to_string())),
            (String::from_str("valid_time_start"), AttributeText::S(format_rfc3339(start))),
            (String::from_str("valid_time_end"), AttributeText::S(format_rfc3339(end))),
            (String::from_str("transaction_time_start"), AttributeText::S(format_rfc3339(now))),
            (String::from_str("version_id"), AttributeText::S(uuid_to_string(version_id))),
            (String::from_str("data"), AttributeText::S(data)),
        ];
        assert(attributes_model(r@) =~= record_item_model(
            *entity_id,
            *temporal_range,
            d,
            version_id,
            now,
        ));
        Ok(r)
    }
}

/// The version of a returned item: the identifier its version attribute
/// reads, or a fresh random one when it has none that reads as one.
pub fn version_or_fresh(version: Option<&AttributeText>) -> (r: u128)
    ensures
        version matches Some(AttributeText::S(s)) ==> (uuid_parse(s@) is Some ==> Some(r)
            == uuid_parse(s@)),
        !(version matches Some(AttributeText::S(s)) && uuid_parse(s@) is Some) ==> crate::types::is_random_uuid(r),
{
    match version {
        Some(AttributeText::S(s)) => match parse_uuid(s.as_str()) {
            Ok(v) => v,
            Err(_) => new_uuid(),
        },
        _ => new_uuid(),
    }
}

/// A comparison condition compares the property (on the left) with the value
/// (on the right) by the comparator that means what the operator means: for
/// every pair of values the comparator holds exactly when the operator does.
pub proof fn lemma_condition_compares_as_operator(name: Seq<char>, op: PropertyOperator, value: Seq<char>)
    requires
        is_comparison(op),
    ensures
        exists|sym: Seq<char>|
            #[trigger] condition_text(name, op, value) == name + seq![' '] + sym + seq![' '] + value && forall|
                a: int,
                b: int,
            | comparator_holds(sym, a, b) == Some(operator_holds(op, a, b)),
{
    reveal_strlit(" = ");
    reveal_strlit(" <> ");
    reveal_strlit(" > ");
    reveal_strlit(" >= ");
    reveal_strlit(" < ");
    reveal_strlit(" <= ");
    let sym: Seq<char> = match op {
        PropertyOperator::Equal => seq!['='],
        PropertyOperator::NotEqual => seq!['<', '>'],
        PropertyOperator::GreaterThan => seq!['>'],
        PropertyOperator::GreaterThanOrEqual => seq!['>', '='],
        PropertyOperator::LessThan => seq!['<'],
        _ => seq!['<', '='],
    };
    let sp: Seq<char> = seq![' '];
    assert(condition_text(name, op, value) =~= name + sp + sym + sp + value);
    assert forall|a: int, b: int| comparator_holds(sym, a, b) == Some(operator_holds(op, a, b)) by {}
}

} // verus!
