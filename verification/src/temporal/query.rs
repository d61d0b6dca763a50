//! Query plans for the temporal table: which key condition, expression values
//! and scan direction answer each kind of temporal operation.

use vstd::prelude::*;
use crate::error::Error;
use crate::json::{
    JsonValue, JsonModel, insert_member, members_model, model_set, model_first_key_at,
    lemma_member_set_model, object1, object2,
};
use crate::text::{int_text, int_to_string};
use crate::time::{DateTimeUtc, spec_unix_seconds, unix_seconds};
use crate::types::{TemporalOperation, TemporalRange};

verus! {

/// A query against the temporal table.
#[derive(Debug)]
pub struct OptimizedQuery {
    /// Table name.
    pub table_name: String,
    /// Key condition expression.
    pub key_condition: Option<String>,
    /// Filter expression.
    pub filter_expression: Option<String>,
    /// Expression values.
    pub expression_values: Option<JsonValue>,
    /// Scan direction (`true` for ascending, `false` for descending).
    pub scan_direction: Option<bool>,
    /// Limit.
    pub limit: Option<i32>,
}

/// The content of a query.
pub ghost struct QueryModel {
    pub table_name: Seq<char>,
    pub key_condition: Option<Seq<char>>,
    pub filter_expression: Option<Seq<char>>,
    pub expression_values: Option<JsonModel>,
    pub scan_direction: Option<bool>,
    pub limit: Option<i32>,
}

/// The text of an optional string.
pub open spec fn opt_text(s: Option<String>) -> Option<Seq<char>> {
    match s {
        Some(t) => Some(t@),
        None => None,
    }
}

impl View for OptimizedQuery {
    type V = QueryModel;

    open spec fn view(&self) -> QueryModel {
        QueryModel {
            table_name: self.table_name@,
            key_condition: opt_text(self.key_condition),
            filter_expression: opt_text(self.filter_expression),
            expression_values: match self.expression_values {
                Some(v) => Some(v@),
                None => None,
            },
            scan_direction: self.scan_direction,
            limit: self.limit,
        }
    }
}

/// The key under which a page token travels among the expression values.
pub open spec fn start_key_name() -> Seq<char> {
    ":exclusive_start_key"@
}

/// A key condition extended by a sort key condition.
pub open spec fn joined_condition(existing: Option<Seq<char>>, condition: Seq<char>) -> Seq<char> {
    match existing {
        Some(e) => e + " AND "@ + condition,
        None => condition,
    }
}

impl OptimizedQuery {
    /// A query on `table_name` with nothing else set.
    pub fn new(table_name: String) -> (q: OptimizedQuery)
        ensures
            q.table_name == table_name,
            q.key_condition is None,
            q.filter_expression is None,
            q.expression_values is None,
            q.scan_direction is None,
            q.limit is None,
    {
        OptimizedQuery {
            table_name,
            key_condition: None,
            filter_expression: None,
            expression_values: None,
            scan_direction: None,
            limit: None,
        }
    }

    /// Sets the key condition.
    pub fn with_key_condition(self, condition: String) -> (q: OptimizedQuery)
        ensures
            q == (OptimizedQuery { key_condition: Some(condition), ..self }),
    {
        let mut q = self;
        q.key_condition = Some(condition);
        q
    }

    /// Sets the filter expression.
    pub fn with_filter(self, filter: String) -> (q: OptimizedQuery)
        ensures
            q == (OptimizedQuery { filter_expression: Some(filter), ..self }),
    {
        let mut q = self;
        q.filter_expression = Some(filter);
        q
    }

    /// Sets the expression values.
    pub fn with_values(self, values: JsonValue) -> (q: OptimizedQuery)
        ensures
            q == (OptimizedQuery { expression_values: Some(values), ..self }),
    {
        let mut q = self;
        q.expression_values = Some(values);
        q
    }

    /// Sets the scan direction.
    pub fn with_scan_direction(self, ascending: bool) -> (q: OptimizedQuery)
        ensures
            q == (OptimizedQuery { scan_direction: Some(ascending), ..self }),
    {
        let mut q = self;
        q.scan_direction = Some(ascending);
        q
    }

    /// Sets the limit.
    pub fn with_limit(self, limit: i32) -> (q: OptimizedQuery)
        ensures
            q == (OptimizedQuery { limit: Some(limit), ..self }),
    {
        let mut q = self;
        q.limit = Some(limit);
        q
    }

    /// Adds a sort key condition to the key condition, joined by ` AND `.
    pub fn with_sort_key_condition(self, condition: String) -> (q: OptimizedQuery)
        ensures
            q.key_condition is Some,
            opt_text(q.key_condition) == Some(
                joined_condition(opt_text(self.key_condition), condition@),
            ),
            q.table_name == self.table_name,
            q.filter_expression == self.filter_expression,
            q.expression_values == self.expression_values,
            q.scan_direction == self.scan_direction,
            q.limit == self.limit,
    {
        let mut q = self;
        let key = match q.key_condition {
            Some(existing) => {
                let mut k = existing;
                k.append(" AND ");
                k.append(condition.as_str());
                k
            },
            None => condition,
        };
        q.key_condition = Some(key);
        q
    }

    /// Carries a page token among the expression values under
    /// `:exclusive_start_key`.  Without expression values the token becomes
    /// the only member of a new object; values that are not an object are
    /// left as they are.
    pub fn with_exclusive_start_key(self, token: String) -> (q: OptimizedQuery)
        ensures
            q@ == (QueryModel {
                expression_values: with_start_key(self@.expression_values, token@),
                ..self@
            }),
    {
        let mut q = self;
        let values = match q.expression_values {
            Some(v) => v,
            None => JsonValue::Object(Vec::new()),
        };
        let ghost before = values;
        let values = match values {
            JsonValue::Object(members) => {
                let mut members = members;
                let ghost old_members = members@;
                let key = String::from_str(":exclusive_start_key");
                proof {
                    reveal_strlit(":exclusive_start_key");
                }
                let ghost tv = JsonValue::Str(token);
                insert_member(&mut members, key, JsonValue::Str(token));
                proof {
                    lemma_member_set_model(old_members, start_key_name(), tv, members@);
                    if old_members.len() == 0 {
                        assert(members_model(old_members) =~= Seq::empty());
                        assert(!exists|i: int| model_first_key_at(Seq::empty(), start_key_name(), i));
                        assert(Seq::<(Seq<char>, JsonModel)>::empty().push(
                            (start_key_name(), tv@),
                        ) =~= seq![(start_key_name(), JsonModel::Str(token@))]);
                    }
                }
                JsonValue::Object(members)
            },
            other => other,
        };
        q.expression_values = Some(values);
        q
    }
}

/// Expression values with a page token set under `:exclusive_start_key`.
pub open spec fn with_start_key(values: Option<JsonModel>, token: Seq<char>) -> Option<JsonModel> {
    match values {
        None => Some(JsonModel::Object(seq![(start_key_name(), JsonModel::Str(token))])),
        Some(JsonModel::Object(ms)) => Some(
            JsonModel::Object(model_set(ms, start_key_name(), JsonModel::Str(token))),
        ),
        Some(other) => Some(other),
    }
}

// ---------------------------------------------------------------------------
// Query plans for temporal operations
// ---------------------------------------------------------------------------

/// The JSON number of the whole seconds of an instant.
pub open spec fn seconds_value(t: DateTimeUtc) -> JsonModel {
    JsonModel::Number(int_text(spec_unix_seconds(t as int)))
}

/// Whether the operation names a range whose start lies after its end.
pub open spec fn reversed_operation(op: TemporalOperation) -> bool {
    match op {
        TemporalOperation::Between(start, end) => start > end,
        TemporalOperation::Evolution(range) => range.start is Some && range.end is Some
            && range.start.unwrap().0 > range.end.unwrap().0,
        _ => false,
    }
}

/// A plan with only the table, key condition, values and direction set.
pub open spec fn plan(
    table: Seq<char>,
    key: Seq<char>,
    values: Option<JsonModel>,
    ascending: bool,
) -> QueryModel {
    QueryModel {
        table_name: table,
        key_condition: Some(key),
        filter_expression: None,
        expression_values: values,
        scan_direction: Some(ascending),
        limit: None,
    }
}

/// The query that answers `op` on `table` (for an operation that is not
/// reversed).
pub open spec fn temporal_plan(op: TemporalOperation, table: Seq<char>) -> QueryModel {
    match op {
        TemporalOperation::At(ts) => plan(
            table,
            "valid_time_start <= :ts AND valid_time_end >= :ts"@,
            Some(JsonModel::Object(seq![(":ts"@, seconds_value(ts))])),
            true,
        ),
        TemporalOperation::Between(start, end) => plan(
            table,
            "valid_time_start <= :end AND valid_time_end >= :start"@,
            Some(
                JsonModel::Object(
                    seq![(":start"@, seconds_value(start)), (":end"@, seconds_value(end))],
                ),
            ),
            true,
        ),
        TemporalOperation::Evolution(range) => if range.start is Some && range.end is Some {
            plan(
                table,
                "valid_time_start >= :start AND valid_time_start <= :end"@,
                Some(
                    JsonModel::Object(
                        seq![
                            (":start"@, seconds_value(range.start.unwrap().0)),
                            (":end"@, seconds_value(range.end.unwrap().0)),
                        ],
                    ),
                ),
                true,
            )
        } else {
            QueryModel {
                table_name: table,
                key_condition: None,
                filter_expression: None,
                expression_values: None,
                scan_direction: None,
                limit: None,
            }
        },
        TemporalOperation::Latest => plan(table, "transaction_time_end IS NULL"@, None, false),
    }
}

/// The JSON number of the whole seconds of `t`.
fn seconds_json(t: DateTimeUtc) -> (v: JsonValue)
    ensures
        v@ == seconds_value(t),
{
    JsonValue::Number(int_to_string(unix_seconds(t)))
}

/// Builds the query for a temporal operation on `table`.  A point in time
/// selects the versions valid at it; a span selects the versions valid at some
/// instant of it; an evolution with both bounds selects the versions that
/// start within it (with a bound missing, the query is left without a
/// condition); the latest state selects the versions not yet superseded, in
/// descending order.  A span or evolution whose start lies after its end is
/// refused with `InvalidTemporalRange`.
pub fn optimize_temporal_query(operation: &TemporalOperation, table: String) -> (r: Result<
    OptimizedQuery,
    Error,
>)
    ensures
        r is Err <==> reversed_operation(*operation),
        r matches Err(e) ==> e matches Error::InvalidTemporalRange(m) && m@
            == "Start time must be before end time"@,
        r matches Ok(q) ==> q@ == temporal_plan(*operation, table@),
{
    proof {
        reveal_strlit("Start time must be before end time");
    }
    let query = OptimizedQuery::new(table);
    match operation {
        TemporalOperation::At(ts) => {
            let values = object1(":ts", seconds_json(*ts));
            proof {
                reveal_strlit(":ts");
                reveal_strlit("valid_time_start <= :ts AND valid_time_end >= :ts");
            }
            Ok(
                query.with_key_condition(
                    String::from_str("valid_time_start <= :ts AND valid_time_end >= :ts"),
                ).with_values(values).with_scan_direction(true),
            )
        },
        TemporalOperation::Between(start, end) => {
            if *start > *end {
                return Err(
                    Error::InvalidTemporalRange(String::from_str("Start time must be before end time")),
                );
            }
            let values = object2(":start", seconds_json(*start), ":end", seconds_json(*end));
            proof {
                reveal_strlit(":start");
                reveal_strlit(":end");
                reveal_strlit("valid_time_start <= :end AND valid_time_end >= :start");
            }
            Ok(
                query.with_key_condition(
                    String::from_str("valid_time_start <= :end AND valid_time_end >= :start"),
                ).with_values(values).with_scan_direction(true),
            )
        },
        TemporalOperation::Evolution(range) => {
            match (&range.start, &range.end) {
                (Some(start), Some(end)) => {
                    if start.0 > end.0 {
                        return Err(
                            Error::InvalidTemporalRange(
                                String::from_str("Start time must be before end time"),
                            ),
                        );
                    }
                    let values = object2(
                        ":start",
                        seconds_json(start.0),
                        ":end",
                        seconds_json(end.0),
                    );
                    proof {
                        reveal_strlit(":start");
                        reveal_strlit(":end");
                        reveal_strlit("valid_time_start >= :start AND valid_time_start <= :end");
                    }
                    Ok(
                        query.with_key_condition(
                            String::from_str("valid_time_start >= :start AND valid_time_start <= :end"),
                        ).with_values(values).with_scan_direction(true),
                    )
                },
                _ => Ok(query),
            }
        },
        TemporalOperation::Latest => {
            proof {
                reveal_strlit("transaction_time_end IS NULL");
            }
            Ok(
                query.with_key_condition(String::from_str("transaction_time_end IS NULL")).with_scan_direction(
                    false,
                ),
            )
        },
    }
}

} // verus!
