//! Answers to protocol requests.  The answers are canned: they echo what the
//! request names, with fresh identifiers and the current time where the reply
//! carries them.

use vstd::prelude::*;
use crate::error::{Error, error_text};
use crate::json::{
    JsonValue, JsonModel, members_model, models_of, model_get, get_member, clone_json,
    lemma_members_model_index,
};
use crate::text::{concat2, concat3, nat_text, nat_to_string};
use crate::time::{now_rfc3339, rfc3339_of, MIN_UTC, MAX_UTC};
use crate::types::{uuid_text, uuid_to_string, new_uuid};
use super::{MCPRequest, MCPResponse, RequestModel, ResponseModel};

verus! {

// ---------------------------------------------------------------------------
// The replies, as JSON models
// ---------------------------------------------------------------------------

/// A JSON string.
pub open spec fn jstr(s: Seq<char>) -> JsonModel {
    JsonModel::Str(s)
}

/// The empty JSON object.
pub open spec fn empty_object() -> JsonModel {
    JsonModel::Object(Seq::empty())
}

/// The entity returned for `get_entity`.
pub open spec fn mock_entity(id: Seq<char>) -> JsonModel {
    JsonModel::Object(
        seq![
            ("id"@, jstr(id)),
            ("type"@, jstr("node"@)),
            ("properties"@, empty_object()),
            ("note"@, jstr("This is a mock response as ApiState doesn't have temporal field"@)),
        ],
    )
}

/// The connections returned for `get_connections`: one relation from the
/// entity, with fresh identifiers `a` (the relation) and `b` (the target).
pub open spec fn mock_connections(id: Seq<char>, a: u128, b: u128) -> JsonModel {
    JsonModel::Array(
        seq![
            JsonModel::Object(
                seq![
                    ("id"@, jstr(uuid_text(a))),
                    ("type"@, jstr("RELATED_TO"@)),
                    ("source"@, jstr(id)),
                    ("target"@, jstr(uuid_text(b))),
                    ("properties"@, empty_object()),
                ],
            ),
        ],
    )
}

/// One state of the history returned for `get_entity_history`.
pub open spec fn history_state(id: Seq<char>, at: Seq<char>, name: Seq<char>) -> JsonModel {
    JsonModel::Object(
        seq![
            ("id"@, jstr(id)),
            ("timestamp"@, jstr(at)),
            ("type"@, jstr("node"@)),
            ("properties"@, JsonModel::Object(seq![("name"@, jstr(name))])),
        ],
    )
}

/// The history returned for `get_entity_history`.
pub open spec fn mock_history(id: Seq<char>) -> JsonModel {
    JsonModel::Array(
        seq![
            history_state(id, "2023-05-01T12:00:00Z"@, "Initial state"@),
            history_state(id, "2023-05-02T15:30:00Z"@, "Updated state"@),
        ],
    )
}

/// One search hit.
pub open spec fn search_hit(id: u128, score: Seq<char>, name: Seq<char>) -> JsonModel {
    JsonModel::Object(
        seq![
            ("id"@, jstr(uuid_text(id))),
            ("type"@, jstr("node"@)),
            ("score"@, JsonModel::Number(score)),
            ("properties"@, JsonModel::Object(seq![("name"@, jstr(name))])),
        ],
    )
}

/// The results returned for `search_entities`.
pub open spec fn mock_search(q: Seq<char>, a: u128, b: u128) -> JsonModel {
    JsonModel::Array(
        seq![
            search_hit(a, "0.95"@, "Result for '"@ + q + "'"@),
            search_hit(b, "0.82"@, "Another match for '"@ + q + "'"@),
        ],
    )
}

/// The entity created by `create_entity`.
pub open spec fn created_entity(id: Seq<char>, properties: JsonModel) -> JsonModel {
    JsonModel::Object(
        seq![("id"@, jstr(id)), ("type"@, jstr("node"@)), ("properties"@, properties)],
    )
}

/// The properties given to `create_entity`, or an empty object.
pub open spec fn given_properties(data: JsonModel) -> JsonModel {
    match model_get(data, "properties"@) {
        Some(p) => p,
        None => empty_object(),
    }
}

/// The result of a free-text query.
pub open spec fn mock_query_result(q: Seq<char>, a: u128) -> JsonModel {
    JsonModel::Object(
        seq![
            ("query"@, jstr(q)),
            (
                "matches"@,
                JsonModel::Array(
                    seq![
                        JsonModel::Object(
                            seq![
                                ("id"@, jstr(uuid_text(a))),
                                ("relevance"@, JsonModel::Number("0.89"@)),
                                ("content"@, jstr("Mock result for your query"@)),
                            ],
                        ),
                    ],
                ),
            ),
        ],
    )
}

/// The entity returned for a navigation.
pub open spec fn navigation_entity(id: Seq<char>, direction: Seq<char>) -> JsonModel {
    JsonModel::Object(
        seq![
            ("id"@, jstr(id)),
            ("direction"@, jstr(direction)),
            ("type"@, jstr("node"@)),
            ("note"@, jstr("Navigation mock result"@)),
        ],
    )
}

/// The entity returned for an entity detail request, created at `now`.
pub open spec fn detail_entity(id: Seq<char>, now: Seq<char>) -> JsonModel {
    JsonModel::Object(
        seq![
            ("id"@, jstr(id)),
            ("type"@, jstr("node"@)),
            (
                "properties"@,
                JsonModel::Object(seq![("name"@, jstr("Mock Entity"@)), ("created_at"@, jstr(now))]),
            ),
            ("note"@, jstr("Entity detail mock result"@)),
        ],
    )
}

/// The answer to a command that needs a string member `key` of its data:
/// a reply naming what is missing when there is no such member, a refusal
/// with `invalid` when it is not a string, otherwise `ok` of the string.
pub open spec fn with_text(
    data: JsonModel,
    key: Seq<char>,
    missing: Seq<char>,
    invalid: Seq<char>,
    ok: spec_fn(Seq<char>) -> ResponseModel,
) -> Result<ResponseModel, Seq<char>> {
    match model_get(data, key) {
        None => Ok(ResponseModel::Error(missing)),
        Some(JsonModel::Str(s)) => Ok(ok(s)),
        Some(_) => Err(invalid),
    }
}

/// The answer to command `command` with data `data`; `a` and `b` are the
/// fresh identifiers the answer may use.  `Err` carries the detail of an
/// invalid-input refusal.
pub open spec fn command_reply(
    request_id: Seq<char>,
    command: Seq<char>,
    data: JsonModel,
    a: u128,
    b: u128,
) -> Result<ResponseModel, Seq<char>> {
    if command == "get_entity"@ {
        with_text(
            data,
            "id"@,
            "Missing entity ID"@,
            "Invalid entity ID"@,
            |id: Seq<char>| ResponseModel::Entity(request_id, mock_entity(id)),
        )
    } else if command == "get_connections"@ {
        with_text(
            data,
            "id"@,
            "Missing entity ID"@,
            "Invalid entity ID"@,
            |id: Seq<char>| ResponseModel::Connections(request_id, mock_connections(id, a, b)),
        )
    } else if command == "get_entity_history"@ {
        with_text(
            data,
            "id"@,
            "Missing entity ID"@,
            "Invalid entity ID"@,
            |id: Seq<char>| ResponseModel::History(request_id, mock_history(id)),
        )
    } else if command == "search_entities"@ {
        with_text(
            data,
            "query"@,
            "Missing query"@,
            "Invalid query"@,
            |q: Seq<char>| ResponseModel::SearchResults(request_id, mock_search(q, a, b)),
        )
    } else if command == "create_entity"@ {
        Ok(
            ResponseModel::EntityCreated(
                request_id,
                uuid_text(a),
                created_entity(uuid_text(a), given_properties(data)),
            ),
        )
    } else {
        Ok(ResponseModel::Error("Unknown command: "@ + command))
    }
}

/// The answer to a request, given fresh identifiers `a` and `b` and the
/// current time `now`.  `Err` carries the detail of an invalid-input refusal.
pub open spec fn reply(request: RequestModel, a: u128, b: u128, now: Seq<char>) -> Result<
    ResponseModel,
    Seq<char>,
> {
    match request {
        RequestModel::Command(request_id, command, data) => command_reply(
            request_id,
            command,
            data,
            a,
            b,
        ),
        RequestModel::Query(request_id, q) => Ok(
            ResponseModel::QueryResult(request_id, mock_query_result(q, a)),
        ),
        RequestModel::Cancel(request_id) => Ok(ResponseModel::Cancelled(request_id)),
        RequestModel::Navigate(id, direction) => Ok(
            ResponseModel::Entity(uuid_text(a), navigation_entity(id, direction)),
        ),
        RequestModel::EntityDetail(id) => Ok(
            ResponseModel::Entity(uuid_text(a), detail_entity(id, now)),
        ),
    }
}

/// Whether `r` is the outcome that `reply` describes.
pub open spec fn answers(r: Result<MCPResponse, Error>, expected: Result<ResponseModel, Seq<char>>) -> bool {
    match expected {
        Ok(m) => r matches Ok(x) && x@ == m,
        Err(detail) => r matches Err(Error::InvalidInput(t)) && t@ == detail,
    }
}

/// Whether a request is refused as invalid input: a command that reads an
/// entity by id, or searches by a query, and finds a member there that is not
/// a string.
pub open spec fn refused_request(request: RequestModel) -> bool {
    match request {
        RequestModel::Command(_, c, d) => ((c == "get_entity"@ || c == "get_connections"@ || c
            == "get_entity_history"@) && (model_get(d, "id"@) matches Some(v) && !(v is Str))) || (c
            == "search_entities"@ && (model_get(d, "query"@) matches Some(v) && !(v is Str))),
        _ => false,
    }
}

/// The request identifier a request names, for the requests that carry one.
pub open spec fn request_id_of(request: RequestModel) -> Option<Seq<char>> {
    match request {
        RequestModel::Command(id, _, _) => Some(id),
        RequestModel::Query(id, _) => Some(id),
        RequestModel::Cancel(id) => Some(id),
        _ => None,
    }
}

/// The request identifier a reply carries; an error reply carries none.
pub open spec fn reply_id(m: ResponseModel) -> Option<Seq<char>> {
    match m {
        ResponseModel::Error(_) => None,
        ResponseModel::Entity(id, _) => Some(id),
        ResponseModel::Connections(id, _) => Some(id),
        ResponseModel::History(id, _) => Some(id),
        ResponseModel::SearchResults(id, _) => Some(id),
        ResponseModel::EntityCreated(id, _, _) => Some(id),
        ResponseModel::QueryResult(id, _) => Some(id),
        ResponseModel::Cancelled(id) => Some(id),
    }
}

/// When a request fails, and whom a reply answers: answering a request fails
/// (with invalid input) exactly when it is refused as above; otherwise a reply
/// other than an error reply to a command, query or cancellation carries that
/// request's identifier.  This holds whatever fresh identifiers and time the
/// answer uses.
pub proof fn lemma_reply_failure_and_request_id(request: RequestModel, a: u128, b: u128, now: Seq<char>)
    ensures
        reply(request, a, b, now) is Err <==> refused_request(request),
        reply(request, a, b, now) matches Ok(m) ==> (request_id_of(request) is Some && reply_id(m) is Some
            ==> reply_id(m) == request_id_of(request)),
{
    reveal_strlit("get_entity");
    reveal_strlit("get_connections");
    reveal_strlit("get_entity_history");
    reveal_strlit("search_entities");
    reveal_strlit("create_entity");
    match request {
        RequestModel::Command(rid, c, d) => {
            if c == "get_entity"@ || c == "get_connections"@ || c == "get_entity_history"@ {
                assert("get_connections"@[0] == 'g');
                assert("search_entities"@[0] == 's');
                assert("get_entity_history"@[0] == 'g');
                assert(c != "search_entities"@) by {
                    if c == "search_entities"@ {
                        assert(c[0] == 's');
                    }
                }
                match model_get(d, "id"@) {
                    None => {},
                    Some(JsonModel::Str(_)) => {},
                    Some(_) => {},
                }
            } else if c == "search_entities"@ {
                match model_get(d, "query"@) {
                    None => {},
                    Some(JsonModel::Str(_)) => {},
                    Some(_) => {},
                }
            }
        },
        _ => {},
    }
}

// ---------------------------------------------------------------------------
// Building the replies
// ---------------------------------------------------------------------------

/// A member of an object.
fn member(k: &str, v: JsonValue) -> (m: (String, JsonValue))
    ensures
        m.0@ == k@,
        m.1 == v,
{
    (String::from_str(k), v)
}

/// A JSON string.
fn text_value(s: &str) -> (v: JsonValue)
    ensures
        v@ == jstr(s@),
{
    JsonValue::Str(String::from_str(s))
}

/// An object of the given members.
fn object(members: Vec<(String, JsonValue)>) -> (o: JsonValue)
    ensures
        o@ == JsonModel::Object(members_model(members@)),
{
    JsonValue::Object(members)
}

/// Whether `s` reads `lit`.
fn text_is(s: &String, lit: &str) -> (b: bool)
    ensures
        b == (s@ == lit@),
{
    let t = String::from_str(lit);
    *s == t
}

/// The entity returned for `get_entity`.
fn mock_entity_value(id: &str) -> (v: JsonValue)
    ensures
        v@ == mock_entity(id@),
{
    let m = vec![
        member("id", text_value(id)),
        member("type", text_value("node")),
        member("properties", object(Vec::new())),
        member("note", text_value("This is a mock response as ApiState doesn't have temporal field")),
    ];
    proof {
        lemma_members_model_index(m@);
        assert(members_model(Seq::<(String, JsonValue)>::empty()) =~= Seq::empty());
    }
    assert(members_model(m@) =~= seq![
        ("id"@, jstr(id@)),
        ("type"@, jstr("node"@)),
        ("properties"@, empty_object()),
        ("note"@, jstr("This is a mock response as ApiState doesn't have temporal field"@)),
    ]);
    let v = object(m);
    v
}

/// The connections returned for `get_connections`.
fn mock_connections_value(id: &str, a: u128, b: u128) -> (v: JsonValue)
    ensures
        v@ == mock_connections(id@, a, b),
{
    let m = vec![
        member("id", JsonValue::Str(uuid_to_string(a))),
        member("type", text_value("RELATED_TO")),
        member("source", text_value(id)),
        member("target", JsonValue::Str(uuid_to_string(b))),
        member("properties", object(Vec::new())),
    ];
    proof {
        lemma_members_model_index(m@);
        assert(members_model(Seq::<(String, JsonValue)>::empty()) =~= Seq::empty());
    }
    assert(members_model(m@) =~= seq![
        ("id"@, jstr(uuid_text(a))),
        ("type"@, jstr("RELATED_TO"@)),
        ("source"@, jstr(id@)),
        ("target"@, jstr(uuid_text(b))),
        ("properties"@, empty_object()),
    ]);
    let o = object(m);
    let items = vec![o];
    proof {
        reveal_with_fuel(crate::json::models_of, 2);
        assert(items@.drop_last() =~= Seq::<JsonValue>::empty());
    }
    assert(models_of(items@) =~= seq![items@[0]@]);
    let v = JsonValue::Array(items);
    v
}

/// One state of a history.
fn history_state_value(id: &str, at: &str, name: &str) -> (v: JsonValue)
    ensures
        v@ == history_state(id@, at@, name@),
{
    let props = vec![member("name", text_value(name))];
    proof {
        lemma_members_model_index(props@);
    }
    let m = vec![
        member("id", text_value(id)),
        member("timestamp", text_value(at)),
        member("type", text_value("node")),
        member("properties", object(props)),
    ];
    proof {
        lemma_members_model_index(m@);
    }
    assert(members_model(props@) =~= seq![("name"@, jstr(name@))]);
    assert(members_model(m@) =~= seq![
        ("id"@, jstr(id@)),
        ("timestamp"@, jstr(at@)),
        ("type"@, jstr("node"@)),
        ("properties"@, JsonModel::Object(seq![("name"@, jstr(name@))])),
    ]);
    let v = object(m);
    v
}

/// The history returned for `get_entity_history`.
fn mock_history_value(id: &str) -> (v: JsonValue)
    ensures
        v@ == mock_history(id@),
{
    let items = vec![
        history_state_value(id, "2023-05-01T12:00:00Z", "Initial state"),
        history_state_value(id, "2023-05-02T15:30:00Z", "Updated state"),
    ];
    proof {
        reveal_with_fuel(crate::json::models_of, 3);
        assert(items@.drop_last().drop_last() =~= Seq::<JsonValue>::empty());
        assert(items@.drop_last() =~= seq![items@[0]]);
    }
    assert(models_of(items@) =~= seq![items@[0]@, items@[1]@]);
    let v = JsonValue::Array(items);
    v
}

/// One search hit.
fn search_hit_value(id: u128, score: &str, name: String) -> (v: JsonValue)
    ensures
        v@ == search_hit(id, score@, name@),
{
    let props = vec![member("name", JsonValue::Str(name))];
    proof {
        lemma_members_model_index(props@);
    }
    let m = vec![
        member("id", JsonValue::Str(uuid_to_string(id))),
        member("type", text_value("node")),
        member("score", JsonValue::Number(String::from_str(score))),
        member("properties", object(props)),
    ];
    proof {
        lemma_members_model_index(m@);
    }
    assert(members_model(props@) =~= seq![("name"@, jstr(name@))]);
    assert(members_model(m@) =~= seq![
        ("id"@, jstr(uuid_text(id))),
        ("type"@, jstr("node"@)),
        ("score"@, JsonModel::Number(score@)),
        ("properties"@, JsonModel::Object(seq![("name"@, jstr(name@))])),
    ]);
    let v = object(m);
    v
}

/// The results returned for `search_entities`.
fn mock_search_value(q: &str, a: u128, b: u128) -> (v: JsonValue)
    ensures
        v@ == mock_search(q@, a, b),
{
    let items = vec![
        search_hit_value(a, "0.95", concat3("Result for '", q, "'")),
        search_hit_value(b, "0.82", concat3("Another match for '", q, "'")),
    ];
    proof {
        reveal_with_fuel(crate::json::models_of, 3);
        assert(items@.drop_last().drop_last() =~= Seq::<JsonValue>::empty());
        assert(items@.drop_last() =~= seq![items@[0]]);
    }
    assert(models_of(items@) =~= seq![items@[0]@, items@[1]@]);
    let v = JsonValue::Array(items);
    v
}

/// The result of a free-text query.
fn mock_query_result_value(q: &str, a: u128) -> (v: JsonValue)
    ensures
        v@ == mock_query_result(q@, a),
{
    let hit = vec![
        member("id", JsonValue::Str(uuid_to_string(a))),
        member("relevance", JsonValue::Number(String::from_str("0.89"))),
        member("content", text_value("Mock result for your query")),
    ];
    let ghost hit_model = JsonModel::Object(
        seq![
            ("id"@, jstr(uuid_text(a))),
            ("relevance"@, JsonModel::Number("0.89"@)),
            ("content"@, jstr("Mock result for your query"@)),
        ],
    );
    proof {
        lemma_members_model_index(hit@);
        assert(members_model(hit@) =~= hit_model->Object_0);
    }
    let hit = object(hit);
    let matches = vec![hit];
    proof {
        reveal_with_fuel(crate::json::models_of, 2);
        assert(matches@.drop_last() =~= Seq::<JsonValue>::empty());
        assert(models_of(matches@) =~= seq![hit_model]);
    }
    let m = vec![member("query", text_value(q)), member("matches", JsonValue::Array(matches))];
    proof {
        lemma_members_model_index(m@);
        assert(members_model(m@) =~= seq![
            ("query"@, jstr(q@)),
            ("matches"@, JsonModel::Array(seq![hit_model])),
        ]);
    }
    let v = object(m);
    v
}

/// The entity returned for a navigation.
fn navigation_value(id: &str, direction: &str) -> (v: JsonValue)
    ensures
        v@ == navigation_entity(id@, direction@),
{
    let m = vec![
        member("id", text_value(id)),
        member("direction", text_value(direction)),
        member("type", text_value("node")),
        member("note", text_value("Navigation mock result")),
    ];
    proof {
        lemma_members_model_index(m@);
    }
    assert(members_model(m@) =~= seq![
        ("id"@, jstr(id@)),
        ("direction"@, jstr(direction@)),
        ("type"@, jstr("node"@)),
        ("note"@, jstr("Navigation mock result"@)),
    ]);
    let v = object(m);
    v
}

/// The entity returned for an entity detail request.
fn detail_value(id: &str, now: String) -> (v: JsonValue)
    ensures
        v@ == detail_entity(id@, now@),
{
    let props = vec![member("name", text_value("Mock Entity")), member("created_at", JsonValue::Str(now))];
    proof {
        lemma_members_model_index(props@);
    }
    let m = vec![
        member("id", text_value(id)),
        member("type", text_value("node")),
        member("properties", object(props)),
        member("note", text_value("Entity detail mock result")),
    ];
    proof {
        lemma_members_model_index(m@);
    }
    assert(members_model(props@) =~= seq![("name"@, jstr("Mock Entity"@)), ("created_at"@, jstr(now@))]);
    assert(members_model(m@) =~= seq![
        ("id"@, jstr(id@)),
        ("type"@, jstr("node"@)),
        (
            "properties"@,
            JsonModel::Object(seq![("name"@, jstr("Mock Entity"@)), ("created_at"@, jstr(now@))]),
        ),
        ("note"@, jstr("Entity detail mock result"@)),
    ]);
    let v = object(m);
    v
}

/// The string member `key` of `data`: `Ok(None)` when missing, `Err` with
/// `invalid` when it is not a string.
fn text_member<'a>(data: &'a JsonValue, key: &str, invalid: &str) -> (r: Result<Option<&'a str>, Error>)
    ensures
        match model_get(data@, key@) {
            None => r matches Ok(None),
            Some(JsonModel::Str(s)) => r matches Ok(Some(t)) && t@ == s,
            Some(_) => r matches Err(Error::InvalidInput(m)) && m@ == invalid@,
        },
{
    match get_member(data, key) {
        None => Ok(None),
        Some(v) => match v {
            JsonValue::Str(s) => Ok(Some(s.as_str())),
            _ => Err(Error::InvalidInput(String::from_str(invalid))),
        },
    }
}

/// Answers a request, given two fresh identifiers and the current time in
/// RFC 3339 notation (see `reply`).
pub fn respond(request: MCPRequest, a: u128, b: u128, now: String) -> (r: Result<MCPResponse, Error>)
    ensures
        answers(r, reply(request@, a, b, now@)),
{
    proof {
        reveal_strlit("get_entity");
        reveal_strlit("get_connections");
        reveal_strlit("get_entity_history");
        reveal_strlit("search_entities");
        reveal_strlit("create_entity");
    }
    match request {
        MCPRequest::Command { request_id, command, data, cursor_position: _ } => {
            if text_is(&command, "get_entity") {
                match text_member(&data, "id", "Invalid entity ID") {
                    Err(e) => Err(e),
                    Ok(None) => Ok(MCPResponse::Error { error: String::from_str("Missing entity ID") }),
                    Ok(Some(id)) => Ok(MCPResponse::Entity { request_id, entity: mock_entity_value(id) }),
                }
            } else if text_is(&command, "get_connections") {
                match text_member(&data, "id", "Invalid entity ID") {
                    Err(e) => Err(e),
                    Ok(None) => Ok(MCPResponse::Error { error: String::from_str("Missing entity ID") }),
                    Ok(Some(id)) => Ok(
                        MCPResponse::Connections {
                            request_id,
                            connections: mock_connections_value(id, a, b),
                        },
                    ),
                }
            } else if text_is(&command, "get_entity_history") {
                match text_member(&data, "id", "Invalid entity ID") {
                    Err(e) => Err(e),
                    Ok(None) => Ok(MCPResponse::Error { error: String::from_str("Missing entity ID") }),
                    Ok(Some(id)) => Ok(MCPResponse::History { request_id, history: mock_history_value(id) }),
                }
            } else if text_is(&command, "search_entities") {
                match text_member(&data, "query", "Invalid query") {
                    Err(e) => Err(e),
                    Ok(None) => Ok(MCPResponse::Error { error: String::from_str("Missing query") }),
                    Ok(Some(q)) => Ok(
                        MCPResponse::SearchResults { request_id, results: mock_search_value(q, a, b) },
                    ),
                }
            } else if text_is(&command, "create_entity") {
                let id = uuid_to_string(a);
                let properties = match get_member(&data, "properties") {
                    Some(p) => clone_json(p),
                    None => object(Vec::new()),
                };
                let m = vec![
                    member("id", JsonValue::Str(id.clone())),
                    member("type", text_value("node")),
                    member("properties", properties),
                ];
                proof {
                    lemma_members_model_index(m@);
                    assert(members_model(Seq::<(String, JsonValue)>::empty()) =~= Seq::empty());
                }
                assert(members_model(m@) =~= seq![
                    ("id"@, jstr(uuid_text(a))),
                    ("type"@, jstr("node"@)),
                    ("properties"@, given_properties(data@)),
                ]);
                let entity = object(m);
                Ok(MCPResponse::EntityCreated { request_id, id, entity })
            } else {
                Ok(MCPResponse::Error { error: concat2("Unknown command: ", command.as_str()) })
            }
        },
        MCPRequest::Query { request_id, query_text } => Ok(
            MCPResponse::QueryResult {
                request_id,
                result: mock_query_result_value(query_text.as_str(), a),
            },
        ),
        MCPRequest::Cancel { request_id } => Ok(MCPResponse::Cancelled { request_id }),
        MCPRequest::Navigate { entity_id, direction } => Ok(
            MCPResponse::Entity {
                request_id: uuid_to_string(a),
                entity: navigation_value(entity_id.as_str(), direction.as_str()),
            },
        ),
        MCPRequest::EntityDetail { entity_id } => Ok(
            MCPResponse::Entity {
                request_id: uuid_to_string(a),
                entity: detail_value(entity_id.as_str(), now),
            },
        ),
    }
}

/// Answers a request with fresh random identifiers and the current time in
/// RFC 3339 notation (see `reply`).
pub fn process_request(request: MCPRequest) -> (r: Result<MCPResponse, Error>)
    ensures
        exists|a: u128, b: u128, t: int|
            MIN_UTC <= t <= MAX_UTC && #[trigger] answers(r, reply(request@, a, b, rfc3339_of(t))),
{
    let a = new_uuid();
    let b = new_uuid();
    let now = now_rfc3339();
    let ghost t = choose|t: int| MIN_UTC <= t <= MAX_UTC && now@ == rfc3339_of(t);
    let ghost expected = reply(request@, a, b, now@);
    let r = respond(request, a, b, now);
    assert(answers(r, reply(request@, a, b, rfc3339_of(t))));
    r
}

/// The reply that reports a failed request.
pub fn error_response(e: &Error) -> (r: MCPResponse)
    ensures
        r@ == ResponseModel::Error("Error processing MCP request: "@ + error_text(*e)),
{
    let t = e.to_string();
    MCPResponse::Error { error: concat2("Error processing MCP request: ", t.as_str()) }
}

/// Answers a request; a failure is reported in an error reply.
pub fn handle_request(request: MCPRequest) -> (r: MCPResponse)
    ensures
        exists|a: u128, b: u128, t: int| {
            let expected = #[trigger] reply(request@, a, b, rfc3339_of(t));
            &&& MIN_UTC <= t <= MAX_UTC
            &&& expected matches Ok(m) ==> r@ == m
            &&& expected matches Err(d) ==> r@ == ResponseModel::Error(
                "Error processing MCP request: "@ + "Invalid input: "@ + d,
            )
        },
{
    let a = new_uuid();
    let b = new_uuid();
    let now = now_rfc3339();
    let ghost t = choose|t: int| MIN_UTC <= t <= MAX_UTC && now@ == rfc3339_of(t);
    let ghost expected = reply(request@, a, b, now@);
    match respond(request, a, b, now) {
        Ok(response) => response,
        Err(e) => {
            let r = error_response(&e);
            proof {
                reveal_strlit("Invalid input");
                reveal_strlit(": ");
                reveal_strlit("Invalid input: ");
                let d = expected->Err_0;
                assert(error_text(e) =~= "Invalid input: "@ + d);
                assert(("Error processing MCP request: "@ + error_text(e)) =~= (
                "Error processing MCP request: "@ + "Invalid input: "@ + d));
            }
            r
        },
    }
}

// ---------------------------------------------------------------------------
// Status, configuration and command execution
// ---------------------------------------------------------------------------

/// The status report: operational, with the uptime in seconds and the version.
pub open spec fn status_model(uptime_secs: u64) -> JsonModel {
    JsonModel::Object(
        seq![
            ("status"@, jstr("operational"@)),
            ("uptime"@, JsonModel::Number(nat_text(uptime_secs as nat))),
            ("version"@, jstr(crate::VERSION@)),
        ],
    )
}

/// The protocol configuration.
pub open spec fn config_model() -> JsonModel {
    JsonModel::Object(
        seq![
            ("max_history_items"@, JsonModel::Number("100"@)),
            ("default_search_limit"@, JsonModel::Number("20"@)),
            (
                "features"@,
                JsonModel::Object(
                    seq![
                        ("history_tracking"@, JsonModel::Bool(true)),
                        ("semantic_search"@, JsonModel::Bool(true)),
                        ("real_time_updates"@, JsonModel::Bool(false)),
                    ],
                ),
            ),
        ],
    )
}

/// The acknowledgement of a configuration update.
pub open spec fn config_updated_model(config: JsonModel) -> JsonModel {
    JsonModel::Object(
        seq![
            ("status"@, jstr("success"@)),
            ("message"@, jstr("Configuration updated"@)),
            ("config"@, config),
        ],
    )
}

/// The acknowledgement of a command executed at `now`; any other request is
/// answered with an error report.
pub open spec fn command_ack_model(request: RequestModel, now: Seq<char>) -> JsonModel {
    match request {
        RequestModel::Command(request_id, command, _) => JsonModel::Object(
            seq![
                ("status"@, jstr("success"@)),
                ("request_id"@, jstr(request_id)),
                ("command"@, jstr(command)),
                (
                    "result"@,
                    JsonModel::Object(
                        seq![
                            ("message"@, jstr("Command executed successfully"@)),
                            ("timestamp"@, jstr(now)),
                        ],
                    ),
                ),
            ],
        ),
        _ => JsonModel::Object(
            seq![
                ("status"@, jstr("error"@)),
                ("message"@, jstr("Invalid request type, expected Command"@)),
            ],
        ),
    }
}

/// The status report for an uptime in seconds.
pub fn status_report(uptime_secs: u64) -> (v: JsonValue)
    ensures
        v@ == status_model(uptime_secs),
{
    let m = vec![
        member("status", text_value("operational")),
        member("uptime", JsonValue::Number(nat_to_string(uptime_secs as u128))),
        member("version", text_value(crate::VERSION)),
    ];
    proof {
        lemma_members_model_index(m@);
        assert(members_model(m@) =~= status_model(uptime_secs)->Object_0);
    }
    object(m)
}

/// The protocol configuration.
pub fn config_report() -> (v: JsonValue)
    ensures
        v@ == config_model(),
{
    let features = vec![
        member("history_tracking", JsonValue::Bool(true)),
        member("semantic_search", JsonValue::Bool(true)),
        member("real_time_updates", JsonValue::Bool(false)),
    ];
    proof {
        lemma_members_model_index(features@);
        assert(members_model(features@) =~= config_model()->Object_0[2].1->Object_0);
    }
    let m = vec![
        member("max_history_items", JsonValue::Number(String::from_str("100"))),
        member("default_search_limit", JsonValue::Number(String::from_str("20"))),
        member("features", object(features)),
    ];
    proof {
        lemma_members_model_index(m@);
        assert(members_model(m@) =~= config_model()->Object_0);
    }
    object(m)
}

/// Acknowledges a configuration update, echoing the configuration.
pub fn config_updated(config: JsonValue) -> (v: JsonValue)
    ensures
        v@ == config_updated_model(config@),
{
    let ghost c = config@;
    let m = vec![
        member("status", text_value("success")),
        member("message", text_value("Configuration updated")),
        member("config", config),
    ];
    proof {
        lemma_members_model_index(m@);
        assert(members_model(m@) =~= config_updated_model(c)->Object_0);
    }
    object(m)
}

/// Acknowledges a command executed at `now`.
pub fn command_acknowledgement(request: &MCPRequest, now: String) -> (v: JsonValue)
    ensures
        v@ == command_ack_model(request@, now@),
{
    match request {
        MCPRequest::Command { request_id, command, .. } => {
            let ghost t = now@;
            let result = vec![
                member("message", text_value("Command executed successfully")),
                member("timestamp", JsonValue::Str(now)),
            ];
            proof {
                lemma_members_model_index(result@);
                assert(members_model(result@) =~= command_ack_model(request@, t)->Object_0[3].1->Object_0);
            }
            let m = vec![
                member("status", text_value("success")),
                member("request_id", JsonValue::Str(request_id.clone())),
                member("command", JsonValue::Str(command.clone())),
                member("result", object(result)),
            ];
            proof {
                lemma_members_model_index(m@);
                assert(members_model(m@) =~= command_ack_model(request@, t)->Object_0);
            }
            object(m)
        },
        _ => {
            let m = vec![
                member("status", text_value("error")),
                member("message", text_value("Invalid request type, expected Command")),
            ];
            proof {
                lemma_members_model_index(m@);
                assert(members_model(m@) =~= command_ack_model(request@, now@)->Object_0);
            }
            object(m)
        },
    }
}

/// Executes a command: acknowledges it with the current time.
pub fn execute_command(request: &MCPRequest) -> (v: JsonValue)
    ensures
        exists|t: int| MIN_UTC <= t <= MAX_UTC && v@ == #[trigger] command_ack_model(request@, rfc3339_of(t)),
{
    let now = now_rfc3339();
    let ghost t = now@;
    let ghost at = choose|at: int| MIN_UTC <= at <= MAX_UTC && t == rfc3339_of(at);
    let v = command_acknowledgement(request, now);
    assert(v@ == command_ack_model(request@, t));
    v
}

} // verus!
