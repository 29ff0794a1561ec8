//! The tools that the server registers, and what it tells of each.

use crate::config::Endpoint;
use crate::search::Method;
use crate::text::joined;
use vstd::prelude::*;

verus! {

/// A tool of the server.
#[derive(Clone, Copy, Debug, PartialEq, Eq, Structural)]
pub enum Tool {
    Search,
    SearchByAuthor,
    UploadPapers,
    SearchByDocId,
    SearchByKeyword,
    ListTools,
}

impl Tool {
    /// Name under which the tool is called.
    pub open spec fn name_text(self) -> Seq<char> {
        match self {
            Tool::Search => "search"@,
            Tool::SearchByAuthor => "search_by_author"@,
            Tool::UploadPapers => "upload_papers"@,
            Tool::SearchByDocId => "search_by_doc_id"@,
            Tool::SearchByKeyword => "search_by_keyword"@,
            Tool::ListTools => "list_tools"@,
        }
    }

    /// What the tool tells its callers about itself.
    pub open spec fn description_text(self) -> Seq<char> {
        match self {
            Tool::Search => "Search papers based on the query. Never assume missing values."@,
            Tool::SearchByAuthor => "Search papers based on the author's name. Never assume missing values."@,
            Tool::UploadPapers => "Upload the papers as string array. Never assume missing values."@,
            Tool::SearchByDocId => "Search for the document by the id. Never assume missing values."@,
            Tool::SearchByKeyword => "Search for sections by keyword similarity. Never assume missing values."@,
            Tool::ListTools => "list all the available tools."@,
        }
    }

    /// The backend operation that serves the tool. `ListTools` is answered
    /// by the server itself and has none.
    pub open spec fn endpoint_of(self) -> Option<Endpoint> {
        match self {
            Tool::Search => Some(Endpoint::Search),
            Tool::SearchByAuthor => Some(Endpoint::SearchByAuthor),
            Tool::UploadPapers => Some(Endpoint::UploadPapers),
            Tool::SearchByDocId => Some(Endpoint::SearchByDocId),
            Tool::SearchByKeyword => Some(Endpoint::SearchByKeyword),
            Tool::ListTools => None,
        }
    }

    /// HTTP method of the tool's backend call: uploads are posted, every
    /// other backend call is a GET. `ListTools` makes no call.
    pub open spec fn method_of(self) -> Option<Method> {
        match self {
            Tool::UploadPapers => Some(Method::Post),
            Tool::ListTools => None,
            _ => Some(Method::Get),
        }
    }

    /// Name under which the tool is called.
    pub fn name(&self) -> (name: &'static str)
        ensures
            name@ == self.name_text(),
    {
        match self {
            Tool::Search => "search",
            Tool::SearchByAuthor => "search_by_author",
            Tool::UploadPapers => "upload_papers",
            Tool::SearchByDocId => "search_by_doc_id",
            Tool::SearchByKeyword => "search_by_keyword",
            Tool::ListTools => "list_tools",
        }
    }

    /// What the tool tells its callers about itself.
    pub fn description(&self) -> (description: &'static str)
        ensures
            description@ == self.description_text(),
    {
        match self {
            Tool::Search => "Search papers based on the query. Never assume missing values.",
            Tool::SearchByAuthor => "Search papers based on the author's name. Never assume missing values.",
            Tool::UploadPapers => "Upload the papers as string array. Never assume missing values.",
            Tool::SearchByDocId => "Search for the document by the id. Never assume missing values.",
            Tool::SearchByKeyword => "Search for sections by keyword similarity. Never assume missing values.",
            Tool::ListTools => "list all the available tools.",
        }
    }

    /// The backend operation that serves the tool, if one does.
    pub fn endpoint(&self) -> (endpoint: Option<Endpoint>)
        ensures
            endpoint == self.endpoint_of(),
    {
        match self {
            Tool::Search => Some(Endpoint::Search),
            Tool::SearchByAuthor => Some(Endpoint::SearchByAuthor),
            Tool::UploadPapers => Some(Endpoint::UploadPapers),
            Tool::SearchByDocId => Some(Endpoint::SearchByDocId),
            Tool::SearchByKeyword => Some(Endpoint::SearchByKeyword),
            Tool::ListTools => None,
        }
    }

    /// HTTP method of the tool's backend call, if it makes one.
    pub fn method(&self) -> (method: Option<Method>)
        ensures
            method == self.method_of(),
    {
        match self {
            Tool::UploadPapers => Some(Method::Post),
            Tool::ListTools => None,
            _ => Some(Method::Get),
        }
    }
}

/// The tools in the order in which the server registers them.
pub open spec fn registry() -> Seq<Tool> {
    seq![
        Tool::Search,
        Tool::SearchByAuthor,
        Tool::UploadPapers,
        Tool::SearchByDocId,
        Tool::SearchByKeyword,
        Tool::ListTools,
    ]
}

/// The names of the registered tools, in the order of registration.
pub open spec fn tool_names() -> Seq<Seq<char>> {
    Seq::new(registry().len(), |i: int| registry()[i].name_text())
}

/// The names of the registered tools, one per line.
pub open spec fn tool_listing() -> Seq<char> {
    joined(tool_names(), "\n"@)
}

/// The registered tools, in the order of registration.
pub fn registered_tools() -> (tools: Vec<Tool>)
    ensures
        tools@ == registry(),
{
    let mut tools: Vec<Tool> = Vec::new();
    tools.push(Tool::Search);
    tools.push(Tool::SearchByAuthor);
    tools.push(Tool::UploadPapers);
    tools.push(Tool::SearchByDocId);
    tools.push(Tool::SearchByKeyword);
    tools.push(Tool::ListTools);
    tools
}

} // verus!
