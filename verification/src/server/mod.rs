//! The server: the request each tool sends, the result it makes of the
//! backend's answer, and what the server says of itself.

pub mod call;
pub mod laws;
pub mod tool;

pub use crate::server::call::BackendCall;
pub use crate::server::tool::{registered_tools, registry, tool_listing, tool_names, Tool};

use crate::config::{Endpoint, BASE_URL};
use crate::search::errors::RequestError;
use crate::search::multipart::files_form;
use crate::search::types::{
    AuthorSearchRequest, KeywordRequest, PapersPayload, SearchDocumentRequest, SearchRequest,
};
use crate::search::{HttpRequest, Method, SearchClient};
use crate::text::{join, views};
use serde_json::Value;
use vstd::prelude::*;

verus! {

/// What a tool hands back on success.
#[derive(Debug, PartialEq)]
pub enum ToolContent {
    /// The JSON value of the backend, as it came.
    Json(Value),
    /// Plain text.
    Text(String),
}

/// A tool call that failed, as the caller is told of it.
#[derive(Clone, Debug, PartialEq, Eq)]
pub struct ToolError {
    pub message: String,
}

/// Protocol revision that the server speaks.
#[derive(Clone, Copy, Debug, PartialEq, Eq, Structural)]
pub enum ProtocolVersion {
    V2024_11_05,
}

/// What the server offers to a client.
#[derive(Clone, Copy, Debug, PartialEq, Eq, Structural)]
pub struct ServerCapabilities {
    pub tools: bool,
}

/// What the server says of itself when a client connects.
#[derive(Clone, Debug, PartialEq, Eq)]
pub struct ServerInfo {
    pub protocol_version: ProtocolVersion,
    pub capabilities: ServerCapabilities,
    pub instructions: Option<String>,
}

/// What the server tells a client to expect from it: the names of its tools,
/// as `list_tools` gives them.
pub open spec fn instructions_text() -> Seq<char> {
    "This server provides the following tools: \n"@ + tool_listing() + "."@
}

/// `result` is what a call makes of `outcome`: the value of the backend
/// unchanged, or an error whose message names the call and gives the cause.
pub open spec fn is_result(
    result: Result<ToolContent, ToolError>,
    call: BackendCall,
    outcome: Result<Value, RequestError>,
) -> bool {
    match outcome {
        Ok(value) => result == Ok::<ToolContent, ToolError>(ToolContent::Json(value)),
        Err(cause) => result matches Err(error) && exists|text: Seq<char>|
            #![trigger cause.has_text(text)]
            cause.has_text(text) && error.message@ == call.failure_message(text),
    }
}

/// The server: its tools and the bridge they share.
#[derive(Clone, Debug, PartialEq, Eq)]
pub struct SmartSearchMCP {
    pub client: SearchClient,
}

impl SmartSearchMCP {
    /// A server whose backend is at the configured base URL.
    pub fn new() -> (server: Self)
        ensures
            server.client.base_url@ == BASE_URL@,
    {
        SmartSearchMCP { client: SearchClient::new() }
    }

    /// The request of the tool `search`: a GET of the search endpoint with
    /// the request as query parameters.
    pub fn search(&self, search_query: &SearchRequest) -> (request: HttpRequest)
        ensures
            request@ == BackendCall::Search(*search_query).request(self.client.base_url@),
    {
        self.client.request(
            Method::Get,
            Endpoint::Search.path(),
            Some(search_query.query_params()),
            None,
        )
    }

    /// The request of the tool `search_by_author`: a GET of its endpoint with
    /// the author as query parameter.
    pub fn search_by_author(&self, query: &AuthorSearchRequest) -> (request: HttpRequest)
        ensures
            request@ == BackendCall::SearchByAuthor(*query).request(self.client.base_url@),
    {
        self.client.request(
            Method::Get,
            Endpoint::SearchByAuthor.path(),
            Some(query.query_params()),
            None,
        )
    }

    /// The request of the tool `upload_papers`: a POST of its endpoint with a
    /// multipart body of one part per file, in input order. An empty list is
    /// sent like any other, with no part.
    pub fn upload_papers(&self, payload: &PapersPayload) -> (request: HttpRequest)
        ensures
            request@ == BackendCall::UploadPapers(*payload).request(self.client.base_url@),
            request@.parts matches Some(parts) && parts.len() == payload.files.len(),
    {
        let form = files_form(&payload.files);
        self.client.request(Method::Post, Endpoint::UploadPapers.path(), None, Some(form))
    }

    /// The request of the tool `search_by_doc_id`: a GET of the document
    /// endpoint with the id as query parameter.
    pub fn search_by_doc_id(&self, params: &SearchDocumentRequest) -> (request: HttpRequest)
        ensures
            request@ == BackendCall::SearchByDocId(*params).request(self.client.base_url@),
    {
        self.client.request(
            Method::Get,
            Endpoint::SearchByDocId.path(),
            Some(params.query_params()),
            None,
        )
    }

    /// The request of the tool `search_by_keyword`: a GET of its endpoint
    /// with the request as query parameters.
    pub fn search_by_keyword(&self, query: &KeywordRequest) -> (request: HttpRequest)
        ensures
            request@ == BackendCall::SearchByKeyword(*query).request(self.client.base_url@),
    {
        self.client.request(
            Method::Get,
            Endpoint::SearchByKeyword.path(),
            Some(query.query_params()),
            None,
        )
    }

    /// The request that `call` sends: that of the tool it calls.
    pub fn dispatch(&self, call: &BackendCall) -> (request: HttpRequest)
        ensures
            request@ == call.request(self.client.base_url@),
    {
        match call {
            BackendCall::Search(request) => self.search(request),
            BackendCall::SearchByAuthor(request) => self.search_by_author(request),
            BackendCall::UploadPapers(payload) => self.upload_papers(payload),
            BackendCall::SearchByDocId(request) => self.search_by_doc_id(request),
            BackendCall::SearchByKeyword(request) => self.search_by_keyword(request),
        }
    }

    /// The error of a call that failed for the reason that `cause` gives: the
    /// words for the call, a colon, and the cause.
    pub fn failure(call: &BackendCall, cause: &str) -> (error: ToolError)
        ensures
            error.message@ == call.failure_message(cause@),
    {
        let mut message = match call {
            BackendCall::Search(_) => "Error while fetching search results".to_owned(),
            BackendCall::SearchByAuthor(_) => "Error while fetching search by author results".to_owned(),
            BackendCall::UploadPapers(_) => "Error while uploading papers".to_owned(),
            BackendCall::SearchByDocId(request) => {
                let mut context = "Error searching for document ".to_owned();
                context.append(request.doc_id.as_str());
                context
            },
            BackendCall::SearchByKeyword(_) => "Error while fetching search by keyword results".to_owned(),
        };
        message.append(": ");
        message.append(cause);
        ToolError { message }
    }

    /// The result of `call`, given the outcome of its backend call. A value
    /// is handed on as it is. A failure becomes one error whose message opens
    /// with the words for the call and closes with the failure's own text.
    pub fn respond(&self, call: &BackendCall, outcome: Result<Value, RequestError>) -> (result:
        Result<ToolContent, ToolError>)
        ensures
            is_result(result, *call, outcome),
    {
        match outcome {
            Ok(value) => Ok(ToolContent::Json(value)),
            Err(cause) => {
                let text = cause.describe();
                let error = Self::failure(call, text.as_str());
                Err(error)
            },
        }
    }

    /// The names of the registered tools, one per line, in the order of
    /// registration. Every call gives the same text.
    pub fn list_tools(&self) -> (result: Result<ToolContent, ToolError>)
        ensures
            result matches Ok(ToolContent::Text(listing)) && listing@ == tool_listing(),
    {
        Ok(ToolContent::Text(listing()))
    }

    /// What the server says of itself: the protocol revision it speaks, that
    /// it offers tools, and instructions that list the tools by name.
    pub fn get_info(&self) -> (info: ServerInfo)
        ensures
            info.protocol_version == ProtocolVersion::V2024_11_05,
            info.capabilities == (ServerCapabilities { tools: true }),
            info.instructions matches Some(text) && text@ == instructions_text(),
    {
        let mut text = "This server provides the following tools: \n".to_owned();
        text.append(listing().as_str());
        text.append(".");
        ServerInfo {
            protocol_version: ProtocolVersion::V2024_11_05,
            capabilities: ServerCapabilities { tools: true },
            instructions: Some(text),
        }
    }
}

/// Writes the names of the registered tools, one per line.
fn listing() -> (text: String)
    ensures
        text@ == tool_listing(),
{
    let tools = registered_tools();
    let mut names: Vec<String> = Vec::new();
    let mut i: usize = 0;
    while i < tools.len()
        invariant
            i <= tools.len(),
            tools@ == registry(),
            names.len() == i,
            forall|k: int| 0 <= k < i ==> (#[trigger] names@[k])@ == registry()[k].name_text(),
        decreases tools.len() - i,
    {
        names.push(tools[i].name().to_owned());
        i = i + 1;
    }
    assert(views(names@) =~= tool_names());
    join(&names, "\n")
}

} // verus!
