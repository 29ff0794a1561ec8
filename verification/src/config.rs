//! Where the backend lives: one base URL and one path per operation.

use vstd::prelude::*;

verus! {

pub const BASE_URL: &'static str = "http://127.0.0.1:8000";

pub const SEARCH_ENDPOINT: &'static str = "search";

pub const SEARCH_BY_AUTHOR_ENDPOINT: &'static str = "search_by_author";

pub const UPLOAD_PAPERS_ENDPOINT: &'static str = "upload_papers";

pub const SEARCH_BY_DOC_ID_ENDPOINT: &'static str = "document_details_by_id";

pub const SEARCH_BY_KEYWORD_ENDPOINT: &'static str = "search_by_keyword";

/// Absolute URL of the path `endpoint` below `base`.
pub open spec fn endpoint_url(base: Seq<char>, endpoint: Seq<char>) -> Seq<char> {
    base + "/"@ + endpoint
}

/// Joins a base URL and an endpoint path with one slash.
pub fn resolve(base: &str, endpoint: &str) -> (url: String)
    ensures
        url@ == endpoint_url(base@, endpoint@),
{
    let mut url = base.to_owned();
    url.append("/");
    url.append(endpoint);
    url
}

/// An operation of the backend. Each has one path, fixed for good.
#[derive(Clone, Copy, Debug, PartialEq, Eq, Structural)]
pub enum Endpoint {
    Search,
    SearchByAuthor,
    UploadPapers,
    SearchByDocId,
    SearchByKeyword,
}

impl Endpoint {
    /// Path of the operation below the base URL.
    pub open spec fn path_text(self) -> Seq<char> {
        match self {
            Endpoint::Search => SEARCH_ENDPOINT@,
            Endpoint::SearchByAuthor => SEARCH_BY_AUTHOR_ENDPOINT@,
            Endpoint::UploadPapers => UPLOAD_PAPERS_ENDPOINT@,
            Endpoint::SearchByDocId => SEARCH_BY_DOC_ID_ENDPOINT@,
            Endpoint::SearchByKeyword => SEARCH_BY_KEYWORD_ENDPOINT@,
        }
    }

    /// Path of the operation below the base URL.
    pub fn path(&self) -> (path: &'static str)
        ensures
            path@ == self.path_text(),
    {
        match self {
            Endpoint::Search => SEARCH_ENDPOINT,
            Endpoint::SearchByAuthor => SEARCH_BY_AUTHOR_ENDPOINT,
            Endpoint::UploadPapers => UPLOAD_PAPERS_ENDPOINT,
            Endpoint::SearchByDocId => SEARCH_BY_DOC_ID_ENDPOINT,
            Endpoint::SearchByKeyword => SEARCH_BY_KEYWORD_ENDPOINT,
        }
    }

    /// Absolute URL of the operation at the backend whose base URL is
    /// `base`. Every operation has one.
    pub fn url(&self, base: &str) -> (url: String)
        ensures
            url@ == endpoint_url(base@, self.path_text()),
    {
        resolve(base, self.path())
    }
}

/// No two operations share a path, so no two share a URL.
pub proof fn lemma_paths_differ(a: Endpoint, b: Endpoint, base: Seq<char>)
    requires
        a != b,
    ensures
        a.path_text() != b.path_text(),
        endpoint_url(base, a.path_text()) != endpoint_url(base, b.path_text()),
{
    reveal_strlit("search");
    reveal_strlit("search_by_author");
    reveal_strlit("upload_papers");
    reveal_strlit("document_details_by_id");
    reveal_strlit("search_by_keyword");
    reveal_strlit("/");
    let pa = a.path_text();
    let pb = b.path_text();
    assert(pa.len() != pb.len());
    assert(endpoint_url(base, pa).len() == base.len() + 1 + pa.len());
    assert(endpoint_url(base, pb).len() == base.len() + 1 + pb.len());
}

} // verus!
