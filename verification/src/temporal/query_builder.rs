//! A builder of temporal queries: an entity, a point in time or a span,
//! property and relationship filters, sort fields and pagination, turned into
//! a query against the temporal table.

use vstd::prelude::*;
use crate::error::Error;
use crate::json::{
    JsonValue, JsonModel, insert_member, members_model, model_set, model_set_all,
    lemma_member_set_model, clone_json, object1,
};
use crate::text::{int_text, nat_text, join, texts, join_strings, int_to_string, nat_to_string};
use crate::time::{DateTimeUtc, spec_unix_seconds, unix_seconds};
use crate::types::{EntityId, EntityType, entity_type_text};
use super::query::{OptimizedQuery, QueryModel, joined_condition, with_start_key};

verus! {

/// Operator of a property filter.
#[derive(Clone, Copy, Debug, PartialEq, Eq, Structural)]
pub enum PropertyOperator {
    /// Equal to.
    Equal,
    /// Not equal to.
    NotEqual,
    /// Greater than.
    GreaterThan,
    /// Greater than or equal to.
    GreaterThanOrEqual,
    /// Less than.
    LessThan,
    /// Less than or equal to.
    LessThanOrEqual,
    /// Contains a substring.
    Contains,
    /// Starts with a substring.
    StartsWith,
    /// Ends with a substring.
    EndsWith,
    /// In a set of values.
    In,
    /// Not in a set of values.
    NotIn,
}

/// The symbol of an operator.
pub open spec fn operator_symbol(op: PropertyOperator) -> Seq<char> {
    match op {
        PropertyOperator::Equal => "="@,
        PropertyOperator::NotEqual => "!="@,
        PropertyOperator::GreaterThan => ">"@,
        PropertyOperator::GreaterThanOrEqual => ">="@,
        PropertyOperator::LessThan => "<"@,
        PropertyOperator::LessThanOrEqual => "<="@,
        PropertyOperator::Contains => "contains"@,
        PropertyOperator::StartsWith => "begins_with"@,
        PropertyOperator::EndsWith => "ends_with"@,
        PropertyOperator::In => "IN"@,
        PropertyOperator::NotIn => "NOT IN"@,
    }
}

impl PropertyOperator {
    /// The operator's symbol.
    pub fn to_string(&self) -> (s: String)
        ensures
            s@ == operator_symbol(*self),
    {
        let t = match self {
            PropertyOperator::Equal => "=",
            PropertyOperator::NotEqual => "!=",
            PropertyOperator::GreaterThan => ">",
            PropertyOperator::GreaterThanOrEqual => ">=",
            PropertyOperator::LessThan => "<",
            PropertyOperator::LessThanOrEqual => "<=",
            PropertyOperator::Contains => "contains",
            PropertyOperator::StartsWith => "begins_with",
            PropertyOperator::EndsWith => "ends_with",
            PropertyOperator::In => "IN",
            PropertyOperator::NotIn => "NOT IN",
        };
        proof {
            reveal_strlit("=");
            reveal_strlit("!=");
            reveal_strlit(">");
            reveal_strlit(">=");
            reveal_strlit("<");
            reveal_strlit("<=");
            reveal_strlit("contains");
            reveal_strlit("begins_with");
            reveal_strlit("ends_with");
            reveal_strlit("IN");
            reveal_strlit("NOT IN");
        }
        String::from_str(t)
    }
}

/// A filter on a property value.
#[derive(Debug)]
pub struct PropertyFilter {
    /// Property name.
    pub property_name: String,
    /// Filter operator.
    pub operator: PropertyOperator,
    /// Filter value.
    pub value: JsonValue,
}

/// Direction of a relationship filter.
#[derive(Clone, Copy, Debug, PartialEq, Eq, Structural)]
pub enum RelationshipDirection {
    /// Outgoing relationship.
    Outgoing,
    /// Incoming relationship.
    Incoming,
    /// Either direction.
    Any,
}

/// A filter on the relationships of an entity.
#[derive(Debug)]
pub struct RelationshipFilter {
    /// Relationship type.
    pub relationship_type: String,
    /// Direction of the relationship.
    pub direction: RelationshipDirection,
    /// Target entity type.
    pub target_entity_type: Option<EntityType>,
    /// Property filters on the relationship.
    pub property_filters: Vec<PropertyFilter>,
}

/// Sort order of query results.
#[derive(Clone, Copy, Debug, PartialEq, Eq, Structural)]
pub enum SortOrder {
    Ascending,
    Descending,
}

/// A field to order results by.
#[derive(Debug)]
pub struct SortField {
    pub field: String,
    pub order: SortOrder,
}

/// Builder of temporal queries.
#[derive(Debug)]
pub struct TemporalQueryBuilder {
    /// Entity to query.
    pub entity_id: Option<EntityId>,
    /// Entity type filter.
    pub entity_type: Option<EntityType>,
    /// Point in time to query.
    pub point_in_time: Option<DateTimeUtc>,
    /// Time span to query.
    pub time_range: Option<(DateTimeUtc, DateTimeUtc)>,
    /// Property filters.
    pub property_filters: Vec<PropertyFilter>,
    /// Relationship filters.
    pub relationship_filters: Vec<RelationshipFilter>,
    /// Sort fields.
    pub sort_fields: Vec<SortField>,
    /// Maximum number of results.
    pub limit: Option<usize>,
    /// Sort direction (`true` for ascending).
    pub ascending: bool,
    /// Page size.
    pub page_size: Option<u32>,
    /// Page token.
    pub page_token: Option<String>,
}

// ---------------------------------------------------------------------------
// The query a builder describes
// ---------------------------------------------------------------------------

/// The condition of a property filter on property `name`.
pub open spec fn property_condition(name: Seq<char>, op: PropertyOperator) -> Seq<char> {
    let p = ":"@ + name;
    match op {
        PropertyOperator::Equal => name + " = "@ + p,
        PropertyOperator::NotEqual => name + " <> "@ + p,
        PropertyOperator::GreaterThan => name + " > "@ + p,
        PropertyOperator::LessThan => name + " < "@ + p,
        PropertyOperator::GreaterThanOrEqual => name + " >= "@ + p,
        PropertyOperator::LessThanOrEqual => name + " <= "@ + p,
        PropertyOperator::Contains => "contains("@ + name + ", "@ + p + ")"@,
        PropertyOperator::StartsWith => "begins_with("@ + name + ", "@ + p + ")"@,
        PropertyOperator::EndsWith => "ends_with("@ + name + ", "@ + p + ")"@,
        PropertyOperator::In => name + " IN "@ + p,
        PropertyOperator::NotIn => "NOT "@ + name + " IN "@ + p,
    }
}

/// The conditions of a list of property filters, in order.
pub open spec fn property_conditions(fs: Seq<PropertyFilter>) -> Seq<Seq<char>> {
    fs.map_values(|f: PropertyFilter| property_condition(f.property_name@, f.operator))
}

/// The values of a list of property filters, each under `:` and its name.
pub open spec fn property_values(fs: Seq<PropertyFilter>) -> Seq<(Seq<char>, JsonModel)> {
    fs.map_values(|f: PropertyFilter| (":"@ + f.property_name@, f.value@))
}

/// The equality conditions of a relationship's property filters.
pub open spec fn equality_conditions(fs: Seq<PropertyFilter>) -> Seq<Seq<char>> {
    fs.map_values(|f: PropertyFilter| f.property_name@ + " = :"@ + f.property_name@)
}

/// The condition on the type and direction of relationship filter `i`.
pub open spec fn direction_condition(i: nat, d: RelationshipDirection) -> Seq<char> {
    let t = "relationship_type = :rel_type_"@ + nat_text(i);
    match d {
        RelationshipDirection::Outgoing => t + " AND source_id = :entity_id"@,
        RelationshipDirection::Incoming => t + " AND target_id = :entity_id"@,
        RelationshipDirection::Any => t + " AND (source_id = :entity_id OR target_id = :entity_id)"@,
    }
}

/// Whether a relationship from `source` to `target` relates to entity `e` in
/// direction `d`: an outgoing one starts at the entity, an incoming one ends
/// at it, and one in either direction does one or the other.
pub open spec fn related_in(d: RelationshipDirection, source: Seq<char>, target: Seq<char>, e: Seq<char>) -> bool {
    match d {
        RelationshipDirection::Outgoing => source == e,
        RelationshipDirection::Incoming => target == e,
        RelationshipDirection::Any => source == e || target == e,
    }
}

/// What an endpoint condition of a relationship query asks of a relationship
/// from `source` to `target` when `:entity_id` is bound to `e`: the named
/// endpoint (or one of the two) is the entity; `None` for a text that is no
/// such condition.
pub open spec fn endpoint_condition_holds(c: Seq<char>, source: Seq<char>, target: Seq<char>, e: Seq<char>) -> Option<
    bool,
> {
    if c == "source_id = :entity_id"@ {
        Some(source == e)
    } else if c == "target_id = :entity_id"@ {
        Some(target == e)
    } else if c == "(source_id = :entity_id OR target_id = :entity_id)"@ {
        Some(source == e || target == e)
    } else {
        None
    }
}

/// The conditions of relationship filter `i`: its type and direction, its
/// target type if any, and its property conditions in brackets.
pub open spec fn relationship_conditions(i: nat, f: RelationshipFilter) -> Seq<Seq<char>> {
    seq![direction_condition(i, f.direction)] + target_conditions(i, f) + seq![
        "("@ + join(equality_conditions(f.property_filters@), " AND "@) + ")"@,
    ]
}

/// The target type condition of relationship filter `i`, if it has one.
pub open spec fn target_conditions(i: nat, f: RelationshipFilter) -> Seq<Seq<char>> {
    match f.target_entity_type {
        Some(_) => seq!["target_type = :target_type_"@ + nat_text(i)],
        None => Seq::empty(),
    }
}

/// The target type value of relationship filter `i`, if it has one.
pub open spec fn target_values(i: nat, f: RelationshipFilter) -> Seq<(Seq<char>, JsonModel)> {
    match f.target_entity_type {
        Some(t) => seq![(":target_type_"@ + nat_text(i), JsonModel::Str(entity_type_text(t@)))],
        None => Seq::empty(),
    }
}

/// The values of relationship filter `i`, in the order they are set.
pub open spec fn relationship_values(i: nat, f: RelationshipFilter) -> Seq<(Seq<char>, JsonModel)> {
    seq![(":rel_type_"@ + nat_text(i), JsonModel::Str(f.relationship_type@))] + target_values(i, f)
        + property_values(f.property_filters@)
}

/// The conditions of all relationship filters, filter by filter.
pub open spec fn all_relationship_conditions(fs: Seq<RelationshipFilter>) -> Seq<Seq<char>>
    decreases fs.len(),
{
    if fs.len() == 0 {
        Seq::empty()
    } else {
        all_relationship_conditions(fs.drop_last()) + relationship_conditions(
            (fs.len() - 1) as nat,
            fs.last(),
        )
    }
}

/// The values of all relationship filters, filter by filter.
pub open spec fn all_relationship_values(fs: Seq<RelationshipFilter>) -> Seq<(Seq<char>, JsonModel)>
    decreases fs.len(),
{
    if fs.len() == 0 {
        Seq::empty()
    } else {
        all_relationship_values(fs.drop_last()) + relationship_values(
            (fs.len() - 1) as nat,
            fs.last(),
        )
    }
}

/// The decimal text of the whole seconds of an instant, as a JSON string.
pub open spec fn seconds_text(t: DateTimeUtc) -> JsonModel {
    JsonModel::Str(int_text(spec_unix_seconds(t as int)))
}

/// The temporal conditions: a point in time, or else a span.
pub open spec fn temporal_conditions(b: TemporalQueryBuilder) -> Seq<Seq<char>> {
    match b.point_in_time {
        Some(_) => seq!["valid_time_start <= :ts AND valid_time_end >= :ts"@],
        None => match b.time_range {
            Some(_) => seq!["valid_time_start <= :end"@, "valid_time_end >= :start"@],
            None => Seq::empty(),
        },
    }
}

/// The values of the temporal conditions.
pub open spec fn temporal_values(b: TemporalQueryBuilder) -> Seq<(Seq<char>, JsonModel)> {
    match b.point_in_time {
        Some(ts) => seq![(":ts"@, seconds_text(ts))],
        None => match b.time_range {
            Some((start, end)) => seq![(":start"@, seconds_text(start)), (":end"@, seconds_text(end))],
            None => Seq::empty(),
        },
    }
}

/// The entity type condition, if any.
pub open spec fn type_conditions(b: TemporalQueryBuilder) -> Seq<Seq<char>> {
    match b.entity_type {
        Some(_) => seq!["entity_type = :et"@],
        None => Seq::empty(),
    }
}

/// The value of the entity type condition, if any.
pub open spec fn type_values(b: TemporalQueryBuilder) -> Seq<(Seq<char>, JsonModel)> {
    match b.entity_type {
        Some(t) => seq![(":et"@, JsonModel::Str(entity_type_text(t@)))],
        None => Seq::empty(),
    }
}

/// The relationship clause, if there are relationship filters.
pub open spec fn relationship_clause(b: TemporalQueryBuilder) -> Seq<Seq<char>> {
    if b.relationship_filters@.len() > 0 {
        seq!["("@ + join(all_relationship_conditions(b.relationship_filters@), " AND "@) + ")"@]
    } else {
        Seq::empty()
    }
}

/// Every condition of the filter expression, in order.
pub open spec fn filter_conditions(b: TemporalQueryBuilder) -> Seq<Seq<char>> {
    temporal_conditions(b) + type_conditions(b) + property_conditions(b.property_filters@)
        + relationship_clause(b)
}

/// Every filter value, in the order the values are set.
pub open spec fn filter_values(b: TemporalQueryBuilder) -> Seq<(Seq<char>, JsonModel)> {
    temporal_values(b) + type_values(b) + property_values(b.property_filters@)
        + all_relationship_values(b.relationship_filters@)
}

/// The ordering term of a sort field.
pub open spec fn sort_term(f: SortField) -> Seq<char> {
    match f.order {
        SortOrder::Ascending => f.field@ + " ASC"@,
        SortOrder::Descending => f.field@ + " DESC"@,
    }
}

/// The ordering terms of the sort fields, in order.
pub open spec fn sort_terms(fs: Seq<SortField>) -> Seq<Seq<char>> {
    fs.map_values(|f: SortField| sort_term(f))
}

/// The query a builder describes.  The entity gives the key condition and the
/// value `:eid`; the filter expression joins the temporal, entity type,
/// property and relationship conditions with ` AND `, and when there is any
/// its values replace the expression values; the sort terms join the key
/// condition; a page size replaces the limit; a page token is carried among
/// the expression values.
pub open spec fn built_query(b: TemporalQueryBuilder) -> QueryModel {
    let key0 = match b.entity_id {
        Some(_) => Some("entity_id = :eid"@),
        None => None,
    };
    let values0 = match b.entity_id {
        Some(id) => Some(JsonModel::Object(seq![(":eid"@, JsonModel::Str(id.id@))])),
        None => None,
    };
    let conds = filter_conditions(b);
    let filter = if conds.len() > 0 {
        Some(join(conds, " AND "@))
    } else {
        None
    };
    let values1 = if conds.len() > 0 {
        Some(JsonModel::Object(model_set_all(Seq::empty(), filter_values(b))))
    } else {
        values0
    };
    let key1 = if b.sort_fields@.len() > 0 {
        Some(joined_condition(key0, join(sort_terms(b.sort_fields@), ", "@)))
    } else {
        key0
    };
    let limit0 = match b.limit {
        Some(l) => Some(l as i32),
        None => None,
    };
    let limit1 = match b.page_size {
        Some(s) => Some(s as i32),
        None => limit0,
    };
    let values2 = match b.page_token {
        Some(t) => with_start_key(values1, t@),
        None => values1,
    };
    QueryModel {
        table_name: "temporal_entities"@,
        key_condition: key1,
        filter_expression: filter,
        expression_values: values2,
        scan_direction: Some(b.ascending),
        limit: limit1,
    }
}

// ---------------------------------------------------------------------------
// Building
// ---------------------------------------------------------------------------

/// Setting one more value after `done`.
proof fn lemma_set_all_push(done: Seq<(Seq<char>, JsonModel)>, x: (Seq<char>, JsonModel))
    ensures
        model_set_all(Seq::empty(), done.push(x)) == model_set(
            model_set_all(Seq::empty(), done),
            x.0,
            x.1,
        ),
{
    assert(done.push(x).drop_last() =~= done);
}

/// Sets `key` to `value` among the filter values.
fn put_value(
    values: &mut Vec<(String, JsonValue)>,
    key: String,
    value: JsonValue,
    Ghost(done): Ghost<Seq<(Seq<char>, JsonModel)>>,
)
    requires
        members_model(old(values)@) == model_set_all(Seq::empty(), done),
    ensures
        members_model(final(values)@) == model_set_all(Seq::empty(), done.push((key@, value@))),
{
    let ghost before = values@;
    let ghost k = key@;
    let ghost v = value;
    insert_member(values, key, value);
    proof {
        lemma_member_set_model(before, k, v, values@);
        lemma_set_all_push(done, (k, v@));
    }
}

/// Adds a condition.
fn put_condition(conds: &mut Vec<String>, c: String)
    ensures
        texts(final(conds)@) == texts(old(conds)@).push(c@),
{
    conds.push(c);
    assert(texts(conds@) =~= texts(old(conds)@).push(c@));
}

/// `a` followed by the decimal numeral of `i`.
fn indexed(a: &str, i: usize) -> (s: String)
    ensures
        s@ == a@ + nat_text(i as nat),
{
    let mut s = String::from_str(a);
    let n = nat_to_string(i as u128);
    s.append(n.as_str());
    s
}

/// `a`, then `b`, then `c`, then `d`, then `e`.
fn concat5(a: &str, b: &str, c: &str, d: &str, e: &str) -> (s: String)
    ensures
        s@ == a@ + b@ + c@ + d@ + e@,
{
    let mut s = String::from_str(a);
    s.append(b);
    s.append(c);
    s.append(d);
    s.append(e);
    s
}

/// The condition of a property filter.
fn property_condition_text(name: &String, op: PropertyOperator) -> (s: String)
    ensures
        s@ == property_condition(name@, op),
{
    let n = name.as_str();
    proof {
        reveal_strlit(":");
        reveal_strlit(" = ");
        reveal_strlit(" <> ");
        reveal_strlit(" > ");
        reveal_strlit(" < ");
        reveal_strlit(" >= ");
        reveal_strlit(" <= ");
        reveal_strlit("contains(");
        reveal_strlit("begins_with(");
        reveal_strlit("ends_with(");
        reveal_strlit(", ");
        reveal_strlit(")");
        reveal_strlit(" IN ");
        reveal_strlit("NOT ");
        reveal_strlit("");
    }
    let s = match op {
        PropertyOperator::Equal => concat5(n, " = ", ":", n, ""),
        PropertyOperator::NotEqual => concat5(n, " <> ", ":", n, ""),
        PropertyOperator::GreaterThan => concat5(n, " > ", ":", n, ""),
        PropertyOperator::LessThan => concat5(n, " < ", ":", n, ""),
        PropertyOperator::GreaterThanOrEqual => concat5(n, " >= ", ":", n, ""),
        PropertyOperator::LessThanOrEqual => concat5(n, " <= ", ":", n, ""),
        PropertyOperator::Contains => {
            let mut s = concat5("contains(", n, ", ", ":", n);
            s.append(")");
            s
        },
        PropertyOperator::StartsWith => {
            let mut s = concat5("begins_with(", n, ", ", ":", n);
            s.append(")");
            s
        },
        PropertyOperator::EndsWith => {
            let mut s = concat5("ends_with(", n, ", ", ":", n);
            s.append(")");
            s
        },
        PropertyOperator::In => concat5(n, " IN ", ":", n, ""),
        PropertyOperator::NotIn => concat5("NOT ", n, " IN ", ":", n),
    };
    assert(s@ =~= property_condition(name@, op));
    s
}

/// The decimal text of the whole seconds of `t`, as a JSON string.
fn seconds_string(t: DateTimeUtc) -> (v: JsonValue)
    ensures
        v@ == seconds_text(t),
{
    JsonValue::Str(int_to_string(unix_seconds(t)))
}

/// `(` + the parts joined by ` AND ` + `)`.
fn bracketed_and(parts: &Vec<String>) -> (s: String)
    ensures
        s@ == "("@ + join(texts(parts@), " AND "@) + ")"@,
{
    let inner = join_strings(parts, " AND ");
    let mut s = String::from_str("(");
    s.append(inner.as_str());
    s.append(")");
    s
}

/// The condition on the type and direction of relationship filter `i`.
fn direction_text(i: usize, d: RelationshipDirection) -> (s: String)
    ensures
        s@ == direction_condition(i as nat, d),
{
    let mut s = indexed("relationship_type = :rel_type_", i);
    let tail = match d {
        RelationshipDirection::Outgoing => " AND source_id = :entity_id",
        RelationshipDirection::Incoming => " AND target_id = :entity_id",
        RelationshipDirection::Any => " AND (source_id = :entity_id OR target_id = :entity_id)",
    };
    proof {
        reveal_strlit("relationship_type = :rel_type_");
        reveal_strlit(" AND source_id = :entity_id");
        reveal_strlit(" AND target_id = :entity_id");
        reveal_strlit(" AND (source_id = :entity_id OR target_id = :entity_id)");
    }
    s.append(tail);
    s
}

/// Adds the temporal conditions and their values.
fn add_temporal(
    b: &TemporalQueryBuilder,
    conds: &mut Vec<String>,
    values: &mut Vec<(String, JsonValue)>,
    Ghost(done): Ghost<Seq<(Seq<char>, JsonModel)>>,
)
    requires
        members_model(old(values)@) == model_set_all(Seq::empty(), done),
    ensures
        texts(final(conds)@) == texts(old(conds)@) + temporal_conditions(*b),
        members_model(final(values)@) == model_set_all(Seq::empty(), done + temporal_values(*b)),
{
    proof {
        reveal_strlit("valid_time_start <= :ts AND valid_time_end >= :ts");
        reveal_strlit("valid_time_start <= :end");
        reveal_strlit("valid_time_end >= :start");
        reveal_strlit(":ts");
        reveal_strlit(":start");
        reveal_strlit(":end");
    }
    let ghost c0 = texts(conds@);
    match b.point_in_time {
        Some(ts) => {
            put_condition(conds, String::from_str("valid_time_start <= :ts AND valid_time_end >= :ts"));
            put_value(values, String::from_str(":ts"), seconds_string(ts), Ghost(done));
            assert(texts(conds@) =~= c0 + temporal_conditions(*b));
            assert(done.push((":ts"@, seconds_text(ts))) =~= done + temporal_values(*b));
        },
        None => match b.time_range {
            Some((start, end)) => {
                put_condition(conds, String::from_str("valid_time_start <= :end"));
                put_condition(conds, String::from_str("valid_time_end >= :start"));
                put_value(values, String::from_str(":start"), seconds_string(start), Ghost(done));
                let ghost d1 = done.push((":start"@, seconds_text(start)));
                put_value(values, String::from_str(":end"), seconds_string(end), Ghost(d1));
                assert(texts(conds@) =~= c0 + temporal_conditions(*b));
                assert(d1.push((":end"@, seconds_text(end))) =~= done + temporal_values(*b));
            },
            None => {
                assert(texts(conds@) =~= c0 + temporal_conditions(*b));
                assert(done =~= done + temporal_values(*b));
            },
        },
    }
}

/// Adds the entity type condition and its value.
fn add_type(
    b: &TemporalQueryBuilder,
    conds: &mut Vec<String>,
    values: &mut Vec<(String, JsonValue)>,
    Ghost(done): Ghost<Seq<(Seq<char>, JsonModel)>>,
)
    requires
        members_model(old(values)@) == model_set_all(Seq::empty(), done),
    ensures
        texts(final(conds)@) == texts(old(conds)@) + type_conditions(*b),
        members_model(final(values)@) == model_set_all(Seq::empty(), done + type_values(*b)),
{
    proof {
        reveal_strlit("entity_type = :et");
        reveal_strlit(":et");
    }
    let ghost c0 = texts(conds@);
    match &b.entity_type {
        Some(t) => {
            put_condition(conds, String::from_str("entity_type = :et"));
            put_value(values, String::from_str(":et"), JsonValue::Str(t.to_string()), Ghost(done));
            assert(texts(conds@) =~= c0 + type_conditions(*b));
            assert(done.push((":et"@, JsonModel::Str(entity_type_text(t@)))) =~= done + type_values(
                *b,
            ));
        },
        None => {
            assert(texts(conds@) =~= c0 + type_conditions(*b));
            assert(done =~= done + type_values(*b));
        },
    }
}

/// Adds the conditions and values of property filters.
fn add_properties(
    fs: &Vec<PropertyFilter>,
    conds: &mut Vec<String>,
    values: &mut Vec<(String, JsonValue)>,
    Ghost(done): Ghost<Seq<(Seq<char>, JsonModel)>>,
)
    requires
        members_model(old(values)@) == model_set_all(Seq::empty(), done),
    ensures
        texts(final(conds)@) == texts(old(conds)@) + property_conditions(fs@),
        members_model(final(values)@) == model_set_all(Seq::empty(), done + property_values(fs@)),
{
    proof {
        reveal_strlit(":");
    }
    let ghost c0 = texts(conds@);
    let mut i: usize = 0;
    while i < fs.len()
        invariant
            0 <= i <= fs@.len(),
            texts(conds@) == c0 + property_conditions(fs@.subrange(0, i as int)),
            members_model(values@) == model_set_all(
                Seq::empty(),
                done + property_values(fs@.subrange(0, i as int)),
            ),
        decreases fs@.len() - i,
    {
        let f = &fs[i];
        let ghost d = done + property_values(fs@.subrange(0, i as int));
        put_condition(conds, property_condition_text(&f.property_name, f.operator));
        let key = crate::text::concat2(":", f.property_name.as_str());
        put_value(values, key, clone_json(&f.value), Ghost(d));
        proof {
            let a = fs@.subrange(0, i as int);
            let a1 = fs@.subrange(0, i + 1);
            assert(a1 =~= a.push(fs@[i as int]));
            assert(property_conditions(a1) =~= property_conditions(a).push(
                property_condition(f.property_name@, f.operator),
            ));
            assert(property_values(a1) =~= property_values(a).push((":"@ + f.property_name@, f.value@)));
            assert(texts(conds@) =~= c0 + property_conditions(a1));
            assert(d.push((":"@ + f.property_name@, f.value@)) =~= done + property_values(a1));
        }
        i = i + 1;
    }
    assert(fs@.subrange(0, fs@.len() as int) =~= fs@);
}

/// Adds the conditions and values of relationship filter `i`.
fn add_relationship(
    i: usize,
    f: &RelationshipFilter,
    rel: &mut Vec<String>,
    values: &mut Vec<(String, JsonValue)>,
    Ghost(done): Ghost<Seq<(Seq<char>, JsonModel)>>,
)
    requires
        members_model(old(values)@) == model_set_all(Seq::empty(), done),
    ensures
        texts(final(rel)@) == texts(old(rel)@) + relationship_conditions(i as nat, *f),
        members_model(final(values)@) == model_set_all(
            Seq::empty(),
            done + relationship_values(i as nat, *f),
        ),
{
    proof {
        reveal_strlit(":rel_type_");
        reveal_strlit(":target_type_");
        reveal_strlit("target_type = :target_type_");
        reveal_strlit(":");
    }
    let ghost c0 = texts(rel@);
    put_condition(rel, direction_text(i, f.direction));
    let ghost d0 = done.push((":rel_type_"@ + nat_text(i as nat), JsonModel::Str(f.relationship_type@)));
    put_value(values, indexed(":rel_type_", i), JsonValue::Str(f.relationship_type.clone()), Ghost(done));
    let ghost target = target_values(i as nat, *f);
    let ghost target_cond = target_conditions(i as nat, *f);
    match &f.target_entity_type {
        Some(t) => {
            put_value(values, indexed(":target_type_", i), JsonValue::Str(t.to_string()), Ghost(d0));
            put_condition(rel, indexed("target_type = :target_type_", i));
            assert(d0.push((":target_type_"@ + nat_text(i as nat), JsonModel::Str(entity_type_text(t@))))
                =~= d0 + target);
        },
        None => {
            assert(d0 =~= d0 + target);
        },
    }
    let ghost d1 = d0 + target;
    assert(texts(rel@) =~= c0 + seq![direction_condition(i as nat, f.direction)] + target_cond);
    let fs = &f.property_filters;
    let mut props: Vec<String> = Vec::new();
    let mut j: usize = 0;
    while j < fs.len()
        invariant
            0 <= j <= fs@.len(),
            texts(props@) == equality_conditions(fs@.subrange(0, j as int)),
            members_model(values@) == model_set_all(
                Seq::empty(),
                d1 + property_values(fs@.subrange(0, j as int)),
            ),
        decreases fs@.len() - j,
    {
        let p = &fs[j];
        let ghost d = d1 + property_values(fs@.subrange(0, j as int));
        let n = p.property_name.as_str();
        proof {
            reveal_strlit(" = :");
            reveal_strlit("");
        }
        put_condition(&mut props, concat5(n, " = :", n, "", ""));
        let key = crate::text::concat2(":", n);
        put_value(values, key, clone_json(&p.value), Ghost(d));
        proof {
            let a = fs@.subrange(0, j as int);
            let a1 = fs@.subrange(0, j + 1);
            assert(a1 =~= a.push(fs@[j as int]));
            assert(equality_conditions(a1) =~= equality_conditions(a).push(
                p.property_name@ + " = :"@ + p.property_name@,
            ));
            assert(property_values(a1) =~= property_values(a).push((":"@ + p.property_name@, p.value@)));
            assert(texts(props@) =~= equality_conditions(a1));
            assert(d.push((":"@ + p.property_name@, p.value@)) =~= d1 + property_values(a1));
        }
        j = j + 1;
    }
    assert(fs@.subrange(0, fs@.len() as int) =~= fs@);
    put_condition(rel, bracketed_and(&props));
    assert(texts(rel@) =~= c0 + relationship_conditions(i as nat, *f));
    assert(d1 + property_values(fs@) =~= done + relationship_values(i as nat, *f));
}

/// Adds the relationship clause and the values of every relationship filter.
fn add_relationships(
    fs: &Vec<RelationshipFilter>,
    conds: &mut Vec<String>,
    values: &mut Vec<(String, JsonValue)>,
    Ghost(done): Ghost<Seq<(Seq<char>, JsonModel)>>,
)
    requires
        members_model(old(values)@) == model_set_all(Seq::empty(), done),
        fs@.len() > 0,
    ensures
        texts(final(conds)@) == texts(old(conds)@).push(
            "("@ + join(all_relationship_conditions(fs@), " AND "@) + ")"@,
        ),
        members_model(final(values)@) == model_set_all(
            Seq::empty(),
            done + all_relationship_values(fs@),
        ),
{
    let mut rel: Vec<String> = Vec::new();
    let mut i: usize = 0;
    while i < fs.len()
        invariant
            0 <= i <= fs@.len(),
            texts(rel@) == all_relationship_conditions(fs@.subrange(0, i as int)),
            members_model(values@) == model_set_all(
                Seq::empty(),
                done + all_relationship_values(fs@.subrange(0, i as int)),
            ),
        decreases fs@.len() - i,
    {
        let ghost d = done + all_relationship_values(fs@.subrange(0, i as int));
        add_relationship(i, &fs[i], &mut rel, values, Ghost(d));
        proof {
            let a = fs@.subrange(0, i as int);
            let a1 = fs@.subrange(0, i + 1);
            assert(a1.drop_last() =~= a);
            assert(a1.last() == fs@[i as int]);
            assert(d + relationship_values(i as nat, fs@[i as int]) =~= done
                + all_relationship_values(a1));
        }
        i = i + 1;
    }
    assert(fs@.subrange(0, fs@.len() as int) =~= fs@);
    put_condition(conds, bracketed_and(&rel));
}

/// The ordering terms of sort fields.
fn sort_term_texts(fs: &Vec<SortField>) -> (r: Vec<String>)
    ensures
        texts(r@) == sort_terms(fs@),
{
    proof {
        reveal_strlit(" ASC");
        reveal_strlit(" DESC");
    }
    let mut r: Vec<String> = Vec::new();
    let mut i: usize = 0;
    while i < fs.len()
        invariant
            0 <= i <= fs@.len(),
            texts(r@) == sort_terms(fs@.subrange(0, i as int)),
        decreases fs@.len() - i,
    {
        let f = &fs[i];
        let t = match f.order {
            SortOrder::Ascending => crate::text::concat2(f.field.as_str(), " ASC"),
            SortOrder::Descending => crate::text::concat2(f.field.as_str(), " DESC"),
        };
        put_condition(&mut r, t);
        proof {
            let a = fs@.subrange(0, i as int);
            let a1 = fs@.subrange(0, i + 1);
            assert(a1 =~= a.push(fs@[i as int]));
            assert(sort_terms(a1) =~= sort_terms(a).push(sort_term(fs@[i as int])));
        }
        i = i + 1;
    }
    assert(fs@.subrange(0, fs@.len() as int) =~= fs@);
    r
}

impl TemporalQueryBuilder {
    /// An empty builder: no filters, ascending order.
    pub fn new() -> (b: TemporalQueryBuilder)
        ensures
            b.entity_id is None,
            b.entity_type is None,
            b.point_in_time is None,
            b.time_range is None,
            b.property_filters@.len() == 0,
            b.relationship_filters@.len() == 0,
            b.sort_fields@.len() == 0,
            b.limit is None,
            b.ascending,
            b.page_size is None,
            b.page_token is None,
    {
        TemporalQueryBuilder {
            entity_id: None,
            entity_type: None,
            point_in_time: None,
            time_range: None,
            property_filters: Vec::new(),
            relationship_filters: Vec::new(),
            sort_fields: Vec::new(),
            limit: None,
            ascending: true,
            page_size: None,
            page_token: None,
        }
    }

    /// Sets the entity to query.
    pub fn entity_id(self, entity_id: EntityId) -> (b: TemporalQueryBuilder)
        ensures
            b == (TemporalQueryBuilder { entity_id: Some(entity_id), ..self }),
    {
        let mut b = self;
        b.entity_id = Some(entity_id);
        b
    }

    /// Sets the entity type filter.
    pub fn entity_type(self, entity_type: EntityType) -> (b: TemporalQueryBuilder)
        ensures
            b == (TemporalQueryBuilder { entity_type: Some(entity_type), ..self }),
    {
        let mut b = self;
        b.entity_type = Some(entity_type);
        b
    }

    /// Queries at a point in time, dropping any span.
    pub fn at(self, timestamp: DateTimeUtc) -> (b: TemporalQueryBuilder)
        ensures
            b == (TemporalQueryBuilder { point_in_time: Some(timestamp), time_range: None, ..self }),
    {
        let mut b = self;
        b.point_in_time = Some(timestamp);
        b.time_range = None;
        b
    }

    /// Queries a span, dropping any point in time; a span whose start lies
    /// after its end is refused with `InvalidTemporalRange`.
    pub fn between(self, start: DateTimeUtc, end: DateTimeUtc) -> (r: Result<
        TemporalQueryBuilder,
        Error,
    >)
        ensures
            r is Err <==> start > end,
            r matches Err(e) ==> e matches Error::InvalidTemporalRange(m) && m@
                == "Start time must be before end time"@,
            r matches Ok(b) ==> b == (TemporalQueryBuilder {
                time_range: Some((start, end)),
                point_in_time: None,
                ..self
            }),
    {
        if start > end {
            proof {
                reveal_strlit("Start time must be before end time");
            }
            return Err(Error::InvalidTemporalRange(String::from_str("Start time must be before end time")));
        }
        let mut b = self;
        b.time_range = Some((start, end));
        b.point_in_time = None;
        Ok(b)
    }

    /// Adds a property filter.
    pub fn add_property_filter_with_operator(
        self,
        property: String,
        operator: PropertyOperator,
        value: JsonValue,
    ) -> (b: TemporalQueryBuilder)
        ensures
            b.property_filters@ == self.property_filters@.push(
                PropertyFilter { property_name: property, operator, value },
            ),
            b == (TemporalQueryBuilder { property_filters: b.property_filters, ..self }),
    {
        let mut b = self;
        b.property_filters.push(PropertyFilter { property_name: property, operator, value });
        b
    }

    /// Adds a relationship filter without property filters.  The target
    /// identifier is accepted and not used.
    pub fn add_relationship_filter(
        self,
        relationship_type: String,
        direction: RelationshipDirection,
        target_type: Option<EntityType>,
        target_id: Option<String>,
    ) -> (b: TemporalQueryBuilder)
        ensures
            b.relationship_filters@.len() == self.relationship_filters@.len() + 1,
            b.relationship_filters@.drop_last() == self.relationship_filters@,
            b.relationship_filters@.last().relationship_type == relationship_type,
            b.relationship_filters@.last().direction == direction,
            b.relationship_filters@.last().target_entity_type == target_type,
            b.relationship_filters@.last().property_filters@.len() == 0,
            b == (TemporalQueryBuilder { relationship_filters: b.relationship_filters, ..self }),
    {
        let mut b = self;
        let ghost before = b.relationship_filters@;
        b.relationship_filters.push(
            RelationshipFilter {
                relationship_type,
                direction,
                target_entity_type: target_type,
                property_filters: Vec::new(),
            },
        );
        assert(b.relationship_filters@.drop_last() == before);
        b
    }

    /// Adds a sort field.
    pub fn add_sort_field(self, field: String, order: SortOrder) -> (b: TemporalQueryBuilder)
        ensures
            b.sort_fields@ == self.sort_fields@.push(SortField { field, order }),
            b == (TemporalQueryBuilder { sort_fields: b.sort_fields, ..self }),
    {
        let mut b = self;
        b.sort_fields.push(SortField { field, order });
        b
    }

    /// Sets the page size.
    pub fn page_size(self, size: u32) -> (b: TemporalQueryBuilder)
        ensures
            b == (TemporalQueryBuilder { page_size: Some(size), ..self }),
    {
        let mut b = self;
        b.page_size = Some(size);
        b
    }

    /// Sets the page token.
    pub fn page_token(self, token: String) -> (b: TemporalQueryBuilder)
        ensures
            b == (TemporalQueryBuilder { page_token: Some(token), ..self }),
    {
        let mut b = self;
        b.page_token = Some(token);
        b
    }

    /// Builds the query this builder describes (see `built_query`).
    pub fn build(self) -> (r: Result<OptimizedQuery, Error>)
        ensures
            r is Ok,
            r.unwrap()@ == built_query(self),
    {
        let ghost b = self;
        proof {
            reveal_strlit("temporal_entities");
            reveal_strlit("entity_id = :eid");
            reveal_strlit(":eid");
        }
        let mut query = OptimizedQuery::new(String::from_str("temporal_entities"));
        match &self.entity_id {
            Some(id) => {
                query = query.with_key_condition(String::from_str("entity_id = :eid"));
                let c = id.id.clone();
                assert(c@ == id.id@);
                query = query.with_values(object1(":eid", JsonValue::Str(c)));
            },
            None => {},
        }
        let mut conds: Vec<String> = Vec::new();
        let mut values: Vec<(String, JsonValue)> = Vec::new();
        proof {
            assert(members_model(values@) =~= Seq::empty());
            assert(texts(conds@) =~= Seq::empty());
        }
        let ghost d0: Seq<(Seq<char>, JsonModel)> = Seq::empty();
        add_temporal(&self, &mut conds, &mut values, Ghost(d0));
        let ghost d1 = d0 + temporal_values(b);
        add_type(&self, &mut conds, &mut values, Ghost(d1));
        let ghost d2 = d1 + type_values(b);
        add_properties(&self.property_filters, &mut conds, &mut values, Ghost(d2));
        let ghost d3 = d2 + property_values(b.property_filters@);
        if self.relationship_filters.len() > 0 {
            add_relationships(&self.relationship_filters, &mut conds, &mut values, Ghost(d3));
        } else {
            assert(d3 + all_relationship_values(b.relationship_filters@) =~= d3);
        }
        proof {
            assert(texts(conds@) =~= filter_conditions(b));
            assert(d3 + all_relationship_values(b.relationship_filters@) =~= filter_values(b));
            assert(texts(conds@).len() == conds@.len());
        }
        if conds.len() > 0 {
            query = query.with_filter(join_strings(&conds, " AND "));
            query = query.with_values(JsonValue::Object(values));
        }
        match self.limit {
            Some(l) => {
                query = query.with_limit(#[verifier::truncate] (l as i32));
            },
            None => {},
        }
        query = query.with_scan_direction(self.ascending);
        if self.sort_fields.len() > 0 {
            let terms = sort_term_texts(&self.sort_fields);
            query = query.with_sort_key_condition(join_strings(&terms, ", "));
        }
        match self.page_size {
            Some(size) => {
                query = query.with_limit(#[verifier::truncate] (size as i32));
            },
            None => {},
        }
        match self.page_token {
            Some(token) => {
                query = query.with_exclusive_start_key(token);
            },
            None => {},
        }
        Ok(query)
    }

    /// The property filters.
    pub fn property_filters(&self) -> (r: &[PropertyFilter])
        ensures
            r@ == self.property_filters@,
    {
        self.property_filters.as_slice()
    }

    /// The relationship filters.
    pub fn relationship_filters(&self) -> (r: &[RelationshipFilter])
        ensures
            r@ == self.relationship_filters@,
    {
        self.relationship_filters.as_slice()
    }
}

/// The condition of a relationship filter selects by direction what the
/// direction means: after the type condition comes an endpoint condition that
/// holds of a relationship exactly when it relates to the entity in that
/// direction (outgoing: the entity is the source; incoming: the target).
pub proof fn lemma_direction_condition_selects_related(i: nat, d: RelationshipDirection)
    ensures
        exists|c: Seq<char>|
            #[trigger] direction_condition(i, d) == "relationship_type = :rel_type_"@ + nat_text(i)
                + " AND "@ + c && forall|source: Seq<char>, target: Seq<char>, e: Seq<char>|
                endpoint_condition_holds(c, source, target, e) == Some(related_in(d, source, target, e)),
{
    reveal_strlit(" AND ");
    reveal_strlit("source_id = :entity_id");
    reveal_strlit("target_id = :entity_id");
    reveal_strlit("(source_id = :entity_id OR target_id = :entity_id)");
    reveal_strlit(" AND source_id = :entity_id");
    reveal_strlit(" AND target_id = :entity_id");
    reveal_strlit(" AND (source_id = :entity_id OR target_id = :entity_id)");
    let src = "source_id = :entity_id"@;
    let tgt = "target_id = :entity_id"@;
    let any = "(source_id = :entity_id OR target_id = :entity_id)"@;
    assert(src[0] == 's' && tgt[0] == 't' && any[0] == '(');
    assert(tgt != src) by {
        assert(tgt[0] != src[0]);
    }
    assert(any != src && any != tgt) by {
        assert(any[0] != src[0] && any[0] != tgt[0]);
    }
    let t = "relationship_type = :rel_type_"@ + nat_text(i);
    let c = match d {
        RelationshipDirection::Outgoing => src,
        RelationshipDirection::Incoming => tgt,
        RelationshipDirection::Any => any,
    };
    assert(direction_condition(i, d) =~= t + " AND "@ + c);
}

} // verus!
