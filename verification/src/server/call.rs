//! A tool call that the backend serves, and the request that stands for it.

use crate::config::{endpoint_url, Endpoint};
use crate::search::multipart::file_parts;
use crate::search::types::{
    AuthorSearchRequest, KeywordRequest, PapersPayload, SearchDocumentRequest, SearchRequest,
};
use crate::search::{content_headers, HttpRequestView, Method, Pairs};
use crate::server::tool::Tool;
use crate::text::views;
use vstd::prelude::*;

verus! {

/// A call of one of the tools that the backend serves, with its request.
#[derive(Clone, Debug, PartialEq, Eq)]
pub enum BackendCall {
    Search(SearchRequest),
    SearchByAuthor(AuthorSearchRequest),
    UploadPapers(PapersPayload),
    SearchByDocId(SearchDocumentRequest),
    SearchByKeyword(KeywordRequest),
}

impl BackendCall {
    /// The tool that is called.
    pub open spec fn tool_of(self) -> Tool {
        match self {
            BackendCall::Search(_) => Tool::Search,
            BackendCall::SearchByAuthor(_) => Tool::SearchByAuthor,
            BackendCall::UploadPapers(_) => Tool::UploadPapers,
            BackendCall::SearchByDocId(_) => Tool::SearchByDocId,
            BackendCall::SearchByKeyword(_) => Tool::SearchByKeyword,
        }
    }

    /// The backend operation that serves the call.
    pub open spec fn endpoint_of(self) -> Endpoint {
        match self {
            BackendCall::Search(_) => Endpoint::Search,
            BackendCall::SearchByAuthor(_) => Endpoint::SearchByAuthor,
            BackendCall::UploadPapers(_) => Endpoint::UploadPapers,
            BackendCall::SearchByDocId(_) => Endpoint::SearchByDocId,
            BackendCall::SearchByKeyword(_) => Endpoint::SearchByKeyword,
        }
    }

    /// HTTP method of the call: an upload is posted, every other call is a
    /// GET.
    pub open spec fn method_of(self) -> Method {
        match self {
            BackendCall::UploadPapers(_) => Method::Post,
            _ => Method::Get,
        }
    }

    /// The query parameters of the call; an upload has none.
    pub open spec fn query(self) -> Option<Pairs> {
        match self {
            BackendCall::Search(request) => Some(request.params()),
            BackendCall::SearchByAuthor(request) => Some(request.params()),
            BackendCall::UploadPapers(_) => None,
            BackendCall::SearchByDocId(request) => Some(request.params()),
            BackendCall::SearchByKeyword(request) => Some(request.params()),
        }
    }

    /// The multipart parts of the call; only an upload has them.
    pub open spec fn parts(self) -> Option<Pairs> {
        match self {
            BackendCall::UploadPapers(payload) => Some(file_parts(views(payload.files@))),
            _ => None,
        }
    }

    /// The request that the call sends to the backend at `base`.
    pub open spec fn request(self, base: Seq<char>) -> HttpRequestView {
        HttpRequestView {
            method: self.method_of(),
            url: endpoint_url(base, self.endpoint_of().path_text()),
            headers: content_headers(self.query() is Some, self.parts() is Some),
            query: self.query(),
            parts: self.parts(),
        }
    }

    /// The words that open the message of a failure of this call. They name
    /// the operation, and for a document lookup the document.
    pub open spec fn failure_context(self) -> Seq<char> {
        match self {
            BackendCall::Search(_) => "Error while fetching search results"@,
            BackendCall::SearchByAuthor(_) => "Error while fetching search by author results"@,
            BackendCall::UploadPapers(_) => "Error while uploading papers"@,
            BackendCall::SearchByDocId(request) => "Error searching for document "@
                + request.doc_id@,
            BackendCall::SearchByKeyword(_) => "Error while fetching search by keyword results"@,
        }
    }

    /// The message of a failure of this call whose cause reads `cause`.
    pub open spec fn failure_message(self, cause: Seq<char>) -> Seq<char> {
        self.failure_context() + ": "@ + cause
    }

    /// The tool that is called.
    pub fn tool(&self) -> (tool: Tool)
        ensures
            tool == self.tool_of(),
    {
        match self {
            BackendCall::Search(_) => Tool::Search,
            BackendCall::SearchByAuthor(_) => Tool::SearchByAuthor,
            BackendCall::UploadPapers(_) => Tool::UploadPapers,
            BackendCall::SearchByDocId(_) => Tool::SearchByDocId,
            BackendCall::SearchByKeyword(_) => Tool::SearchByKeyword,
        }
    }
}

} // verus!
