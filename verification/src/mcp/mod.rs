//! The model context protocol: requests an agent sends about the graph and
//! the responses it gets back.

pub mod handlers;

use vstd::prelude::*;
use crate::json::{JsonValue, JsonModel};

verus! {

/// A position in a source file.
#[derive(Debug)]
pub struct CursorPosition {
    pub file: String,
    pub line: u32,
    pub column: u32,
}

impl Default for CursorPosition {
    /// The start of an unnamed file.
    fn default() -> (c: CursorPosition)
        ensures
            c.file@.len() == 0,
            c.line == 0,
            c.column == 0,
    {
        CursorPosition { file: String::new(), line: 0, column: 0 }
    }
}

/// A request of the protocol.
#[derive(Debug)]
pub enum MCPRequest {
    Navigate { entity_id: String, direction: String },
    EntityDetail { entity_id: String },
    Command {
        request_id: String,
        command: String,
        data: JsonValue,
        cursor_position: Option<CursorPosition>,
    },
    Query { request_id: String, query_text: String },
    Cancel { request_id: String },
}

/// A response of the protocol.
#[derive(Debug)]
pub enum MCPResponse {
    Error { error: String },
    Entity { request_id: String, entity: JsonValue },
    Connections { request_id: String, connections: JsonValue },
    History { request_id: String, history: JsonValue },
    SearchResults { request_id: String, results: JsonValue },
    EntityCreated { request_id: String, id: String, entity: JsonValue },
    QueryResult { request_id: String, result: JsonValue },
    Cancelled { request_id: String },
}

/// The content of a request (the cursor position plays no part).
pub ghost enum RequestModel {
    Navigate(Seq<char>, Seq<char>),
    EntityDetail(Seq<char>),
    Command(Seq<char>, Seq<char>, JsonModel),
    Query(Seq<char>, Seq<char>),
    Cancel(Seq<char>),
}

/// The content of a response.
pub ghost enum ResponseModel {
    Error(Seq<char>),
    Entity(Seq<char>, JsonModel),
    Connections(Seq<char>, JsonModel),
    History(Seq<char>, JsonModel),
    SearchResults(Seq<char>, JsonModel),
    EntityCreated(Seq<char>, Seq<char>, JsonModel),
    QueryResult(Seq<char>, JsonModel),
    Cancelled(Seq<char>),
}

impl View for MCPRequest {
    type V = RequestModel;

    open spec fn view(&self) -> RequestModel {
        match self {
            MCPRequest::Navigate { entity_id, direction } => RequestModel::Navigate(
                entity_id@,
                direction@,
            ),
            MCPRequest::EntityDetail { entity_id } => RequestModel::EntityDetail(entity_id@),
            MCPRequest::Command { request_id, command, data, .. } => RequestModel::Command(
                request_id@,
                command@,
                data@,
            ),
            MCPRequest::Query { request_id, query_text } => RequestModel::Query(
                request_id@,
                query_text@,
            ),
            MCPRequest::Cancel { request_id } => RequestModel::Cancel(request_id@),
        }
    }
}

impl View for MCPResponse {
    type V = ResponseModel;

    open spec fn view(&self) -> ResponseModel {
        match self {
            MCPResponse::Error { error } => ResponseModel::Error(error@),
            MCPResponse::Entity { request_id, entity } => ResponseModel::Entity(request_id@, entity@),
            MCPResponse::Connections { request_id, connections } => ResponseModel::Connections(
                request_id@,
                connections@,
            ),
            MCPResponse::History { request_id, history } => ResponseModel::History(
                request_id@,
                history@,
            ),
            MCPResponse::SearchResults { request_id, results } => ResponseModel::SearchResults(
                request_id@,
                results@,
            ),
            MCPResponse::EntityCreated { request_id, id, entity } => ResponseModel::EntityCreated(
                request_id@,
                id@,
                entity@,
            ),
            MCPResponse::QueryResult { request_id, result } => ResponseModel::QueryResult(
                request_id@,
                result@,
            ),
            MCPResponse::Cancelled { request_id } => ResponseModel::Cancelled(request_id@),
        }
    }
}

} // verus!
