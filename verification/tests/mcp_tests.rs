use graph::error::Error;
use graph::json::JsonValue;
use graph::mcp::handlers::{
    config_report, error_response, handle_request, process_request, respond, status_report,
};
use graph::mcp::{CursorPosition, MCPRequest, MCPResponse};

fn member<'a>(v: &'a JsonValue, key: &str) -> Option<&'a JsonValue> {
    match v {
        JsonValue::Object(ms) => ms.iter().find(|(k, _)| k == key).map(|(_, v)| v),
        _ => None,
    }
}

fn str_of(v: Option<&JsonValue>) -> Option<&str> {
    match v {
        Some(JsonValue::Str(s)) => Some(s.as_str()),
        _ => None,
    }
}

fn command(name: &str, data: JsonValue) -> MCPRequest {
    MCPRequest::Command {
        request_id: "r1".to_string(),
        command: name.to_string(),
        data,
        cursor_position: None,
    }
}

fn object(members: Vec<(&str, JsonValue)>) -> JsonValue {
    JsonValue::Object(members.into_iter().map(|(k, v)| (k.to_string(), v)).collect())
}

#[test]
fn get_entity_echoes_the_identifier() {
    let req = command("get_entity", object(vec![("id", JsonValue::Str("e7".to_string()))]));
    match respond(req, 1, 2, "now".to_string()).unwrap() {
        MCPResponse::Entity { request_id, entity } => {
            assert_eq!(request_id, "r1");
            assert_eq!(str_of(member(&entity, "id")), Some("e7"));
            assert_eq!(str_of(member(&entity, "type")), Some("node"));
        }
        other => panic!("unexpected {:?}", other),
    }
}

#[test]
fn missing_and_invalid_identifiers() {
    let missing = respond(command("get_entity", object(vec![])), 1, 2, String::new()).unwrap();
    assert!(matches!(missing, MCPResponse::Error { ref error } if error == "Missing entity ID"));
    let invalid = respond(
        command("get_connections", object(vec![("id", JsonValue::Bool(true))])),
        1,
        2,
        String::new(),
    );
    assert!(matches!(invalid, Err(Error::InvalidInput(ref m)) if m == "Invalid entity ID"));
    let not_object = respond(command("search_entities", JsonValue::Null), 1, 2, String::new()).unwrap();
    assert!(matches!(not_object, MCPResponse::Error { ref error } if error == "Missing query"));
    let bad_query = respond(
        command("search_entities", object(vec![("query", JsonValue::Number("3".to_string()))])),
        1,
        2,
        String::new(),
    );
    assert!(matches!(bad_query, Err(Error::InvalidInput(ref m)) if m == "Invalid query"));
}

#[test]
fn connections_use_the_fresh_identifiers() {
    let req = command("get_connections", object(vec![("id", JsonValue::Str("e1".to_string()))]));
    match respond(req, 1, 2, String::new()).unwrap() {
        MCPResponse::Connections { connections: JsonValue::Array(items), .. } => {
            assert_eq!(items.len(), 1);
            assert_eq!(
                str_of(member(&items[0], "id")),
                Some("00000000-0000-0000-0000-000000000001")
            );
            assert_eq!(
                str_of(member(&items[0], "target")),
                Some("00000000-0000-0000-0000-000000000002")
            );
            assert_eq!(str_of(member(&items[0], "source")), Some("e1"));
            assert_eq!(str_of(member(&items[0], "type")), Some("RELATED_TO"));
        }
        other => panic!("unexpected {:?}", other),
    }
}

#[test]
fn search_names_the_query() {
    let req = command("search_entities", object(vec![("query", JsonValue::Str("cats".to_string()))]));
    match respond(req, 1, 2, String::new()).unwrap() {
        MCPResponse::SearchResults { results: JsonValue::Array(items), .. } => {
            assert_eq!(items.len(), 2);
            let props = member(&items[0], "properties").unwrap();
            assert_eq!(str_of(member(props, "name")), Some("Result for 'cats'"));
            let props = member(&items[1], "properties").unwrap();
            assert_eq!(str_of(member(props, "name")), Some("Another match for 'cats'"));
            assert!(matches!(member(&items[0], "score"), Some(JsonValue::Number(n)) if n == "0.95"));
        }
        other => panic!("unexpected {:?}", other),
    }
}

#[test]
fn create_entity_and_unknown_command() {
    let props = object(vec![("name", JsonValue::Str("x".to_string()))]);
    let req = command("create_entity", object(vec![("properties", props)]));
    match respond(req, 16, 2, String::new()).unwrap() {
        MCPResponse::EntityCreated { id, entity, .. } => {
            assert_eq!(id, "00000000-0000-0000-0000-000000000010");
            assert_eq!(str_of(member(&entity, "id")), Some(id.as_str()));
            let p = member(&entity, "properties").unwrap();
            assert_eq!(str_of(member(p, "name")), Some("x"));
        }
        other => panic!("unexpected {:?}", other),
    }
    let unknown = respond(command("dance", JsonValue::Null), 1, 2, String::new()).unwrap();
    assert!(matches!(unknown, MCPResponse::Error { ref error } if error == "Unknown command: dance"));
}

#[test]
fn other_requests() {
    let r = respond(MCPRequest::Cancel { request_id: "c".to_string() }, 1, 2, String::new()).unwrap();
    assert!(matches!(r, MCPResponse::Cancelled { ref request_id } if request_id == "c"));
    let r = respond(
        MCPRequest::EntityDetail { entity_id: "d".to_string() },
        3,
        2,
        "2024-01-01T00:00:00+00:00".to_string(),
    )
    .unwrap();
    match r {
        MCPResponse::Entity { request_id, entity } => {
            assert_eq!(request_id, "00000000-0000-0000-0000-000000000003");
            let p = member(&entity, "properties").unwrap();
            assert_eq!(str_of(member(p, "created_at")), Some("2024-01-01T00:00:00+00:00"));
        }
        other => panic!("unexpected {:?}", other),
    }
    let r = respond(
        MCPRequest::Query { request_id: "q".to_string(), query_text: "hello".to_string() },
        1,
        2,
        String::new(),
    )
    .unwrap();
    match r {
        MCPResponse::QueryResult { result, .. } => {
            assert_eq!(str_of(member(&result, "query")), Some("hello"));
        }
        other => panic!("unexpected {:?}", other),
    }
}

#[test]
fn processing_with_fresh_values() {
    let req = command("get_entity_history", object(vec![("id", JsonValue::Str("h".to_string()))]));
    match process_request(req).unwrap() {
        MCPResponse::History { history: JsonValue::Array(items), .. } => assert_eq!(items.len(), 2),
        other => panic!("unexpected {:?}", other),
    }
    let req = command("get_entity", object(vec![("id", JsonValue::Null)]));
    match handle_request(req) {
        MCPResponse::Error { error } => {
            assert_eq!(error, "Error processing MCP request: Invalid input: Invalid entity ID")
        }
        other => panic!("unexpected {:?}", other),
    }
    let e = error_response(&Error::NotFound("x".to_string()));
    assert!(matches!(e, MCPResponse::Error { ref error } if error == "Error processing MCP request: Not found: x"));
}

#[test]
fn status_and_configuration() {
    let s = status_report(42);
    assert_eq!(str_of(member(&s, "status")), Some("operational"));
    assert!(matches!(member(&s, "uptime"), Some(JsonValue::Number(n)) if n == "42"));
    let c = config_report();
    assert!(matches!(member(&c, "max_history_items"), Some(JsonValue::Number(n)) if n == "100"));
    let f = member(&c, "features").unwrap();
    assert!(matches!(member(f, "real_time_updates"), Some(JsonValue::Bool(false))));
    let cursor = CursorPosition::default();
    assert_eq!(cursor.line, 0);
    assert!(cursor.file.is_empty());
}
