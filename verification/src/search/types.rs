//! The typed request of each tool, its defaults and its query parameters.

use crate::search::Pairs;
use crate::text::{decimal, decimal_string};
use vstd::prelude::*;

verus! {

/// Number of results asked for where a request names none.
pub const DEFAULT_TOP_K: u32 = 1;

/// Whether full metadata is asked for where a request does not say.
pub const DEFAULT_FULL_METADATA: bool = true;

/// Value of `top_k` in a request that was sent without the field.
pub fn default_top_k() -> (top_k: Option<u32>)
    ensures
        top_k == Some(DEFAULT_TOP_K),
{
    Some(DEFAULT_TOP_K)
}

/// Value of `full_metadata` in a request that was sent without the field.
pub fn default_meta_data() -> (full_metadata: Option<bool>)
    ensures
        full_metadata == Some(DEFAULT_FULL_METADATA),
{
    Some(DEFAULT_FULL_METADATA)
}

/// An optional field after defaulting. `raw` is `None` where the field was
/// left out; a field that was sent keeps what it was sent with, be it a value
/// or an explicit nothing.
pub open spec fn or_default<T>(raw: Option<Option<T>>, default: Option<T>) -> Option<T> {
    match raw {
        Some(sent) => sent,
        None => default,
    }
}

/// Text of a flag as a query value.
pub open spec fn flag_text(flag: bool) -> Seq<char> {
    if flag {
        "true"@
    } else {
        "false"@
    }
}

/// The parameter `name` with `value` where there is one, nothing otherwise.
pub open spec fn optional_pair(name: Seq<char>, value: Option<Seq<char>>) -> Pairs {
    match value {
        Some(text) => seq![(name, text)],
        None => Seq::empty(),
    }
}

/// Text of an optional count as a query value.
pub open spec fn count_text(count: Option<u32>) -> Option<Seq<char>> {
    match count {
        Some(n) => Some(decimal(n as nat)),
        None => None,
    }
}

/// Text of an optional flag as a query value.
pub open spec fn optional_flag_text(flag: Option<bool>) -> Option<Seq<char>> {
    match flag {
        Some(b) => Some(flag_text(b)),
        None => None,
    }
}

fn push_pair(params: &mut Vec<(String, String)>, name: &str, value: String)
    ensures
        final(params).deep_view() == old(params).deep_view().push((name@, value@)),
{
    params.push((name.to_owned(), value));
}

fn push_count(params: &mut Vec<(String, String)>, name: &str, count: Option<u32>)
    ensures
        final(params).deep_view() == old(params).deep_view() + optional_pair(
            name@,
            count_text(count),
        ),
{
    if let Some(n) = count {
        push_pair(params, name, decimal_string(n));
    }
}

fn push_flag(params: &mut Vec<(String, String)>, name: &str, flag: Option<bool>)
    ensures
        final(params).deep_view() == old(params).deep_view() + optional_pair(
            name@,
            optional_flag_text(flag),
        ),
{
    if let Some(b) = flag {
        let text = if b {
            "true"
        } else {
            "false"
        };
        push_pair(params, name, text.to_owned());
    }
}

/// Search by free text.
#[derive(Clone, Debug, PartialEq, Eq)]
pub struct SearchRequest {
    /// The search query string.
    pub query: String,
    /// The number of matching results to fetch, most relevant first.
    pub top_k: Option<u32>,
    /// Whether the whole metadata of each paper is wanted.
    pub full_metadata: Option<bool>,
}

impl SearchRequest {
    /// The request that the raw fields stand for.
    pub open spec fn decoded(
        query: String,
        top_k: Option<Option<u32>>,
        full_metadata: Option<Option<bool>>,
    ) -> SearchRequest {
        SearchRequest {
            query,
            top_k: or_default(top_k, Some(DEFAULT_TOP_K)),
            full_metadata: or_default(full_metadata, Some(DEFAULT_FULL_METADATA)),
        }
    }

    /// Builds the request from its raw fields. An optional field is `None`
    /// where the caller left it out, and then takes its default: one result,
    /// full metadata. A field that was sent is kept as sent.
    pub fn decode(
        query: String,
        top_k: Option<Option<u32>>,
        full_metadata: Option<Option<bool>>,
    ) -> (request: SearchRequest)
        ensures
            request == Self::decoded(query, top_k, full_metadata),
            top_k is None ==> request.top_k == Some(1u32),
            full_metadata is None ==> request.full_metadata == Some(true),
    {
        let top_k = match top_k {
            Some(sent) => sent,
            None => default_top_k(),
        };
        let full_metadata = match full_metadata {
            Some(sent) => sent,
            None => default_meta_data(),
        };
        SearchRequest { query, top_k, full_metadata }
    }

    /// The query parameters of the request, in ascending order of their
    /// names. A field that holds nothing gives no parameter.
    pub open spec fn params(self) -> Pairs {
        optional_pair("full_metadata"@, optional_flag_text(self.full_metadata)) + seq![
            ("query"@, self.query@),
        ] + optional_pair("top_k"@, count_text(self.top_k))
    }

    /// Encodes the request as query parameters.
    pub fn query_params(&self) -> (params: Vec<(String, String)>)
        ensures
            params.deep_view() == self.params(),
    {
        let mut params: Vec<(String, String)> = Vec::new();
        push_flag(&mut params, "full_metadata", self.full_metadata);
        push_pair(&mut params, "query", self.query.clone());
        push_count(&mut params, "top_k", self.top_k);
        params
    }
}

/// Search by the name of an author.
#[derive(Clone, Debug, PartialEq, Eq)]
pub struct AuthorSearchRequest {
    /// The name of the author whose papers are to be searched.
    pub author: String,
}

impl AuthorSearchRequest {
    /// The query parameters of the request.
    pub open spec fn params(self) -> Pairs {
        seq![("author"@, self.author@)]
    }

    /// Encodes the request as query parameters.
    pub fn query_params(&self) -> (params: Vec<(String, String)>)
        ensures
            params.deep_view() == self.params(),
    {
        let mut params: Vec<(String, String)> = Vec::new();
        push_pair(&mut params, "author", self.author.clone());
        params
    }
}

/// Papers to upload, each as its text.
#[derive(Clone, Debug, PartialEq, Eq)]
pub struct PapersPayload {
    /// List of papers to be uploaded. It may be empty.
    pub files: Vec<String>,
}

/// Lookup of one document.
#[derive(Clone, Debug, PartialEq, Eq)]
pub struct SearchDocumentRequest {
    /// The ID of the document to be searched.
    pub doc_id: String,
}

impl SearchDocumentRequest {
    /// The query parameters of the request.
    pub open spec fn params(self) -> Pairs {
        seq![("doc_id"@, self.doc_id@)]
    }

    /// Encodes the request as query parameters.
    pub fn query_params(&self) -> (params: Vec<(String, String)>)
        ensures
            params.deep_view() == self.params(),
    {
        let mut params: Vec<(String, String)> = Vec::new();
        push_pair(&mut params, "doc_id", self.doc_id.clone());
        params
    }
}

/// Search of sections by keyword similarity.
#[derive(Clone, Debug, PartialEq, Eq)]
pub struct KeywordRequest {
    /// The keyword query string.
    pub keyword_query: String,
    /// The number of matching results to fetch, most relevant first.
    pub top_k: Option<u32>,
}

impl KeywordRequest {
    /// The request that the raw fields stand for.
    pub open spec fn decoded(keyword_query: String, top_k: Option<Option<u32>>) -> KeywordRequest {
        KeywordRequest { keyword_query, top_k: or_default(top_k, Some(DEFAULT_TOP_K)) }
    }

    /// Builds the request from its raw fields. `top_k` is `None` where the
    /// caller left it out, and is then one; sent, it is kept as sent.
    pub fn decode(keyword_query: String, top_k: Option<Option<u32>>) -> (request: KeywordRequest)
        ensures
            request == Self::decoded(keyword_query, top_k),
            top_k is None ==> request.top_k == Some(1u32),
    {
        let top_k = match top_k {
            Some(sent) => sent,
            None => default_top_k(),
        };
        KeywordRequest { keyword_query, top_k }
    }

    /// The query parameters of the request, in ascending order of their
    /// names. A `top_k` that holds nothing gives no parameter.
    pub open spec fn params(self) -> Pairs {
        seq![("keyword_query"@, self.keyword_query@)] + optional_pair(
            "top_k"@,
            count_text(self.top_k),
        )
    }

    /// Encodes the request as query parameters.
    pub fn query_params(&self) -> (params: Vec<(String, String)>)
        ensures
            params.deep_view() == self.params(),
    {
        let mut params: Vec<(String, String)> = Vec::new();
        push_pair(&mut params, "keyword_query", self.keyword_query.clone());
        push_count(&mut params, "top_k", self.top_k);
        params
    }
}

/// A search request that was sent without `top_k` asks for one result, and
/// one sent without `full_metadata` asks for full metadata, whatever its
/// other fields hold. The query parameters say so.
pub proof fn lemma_search_defaults(
    query: String,
    top_k: Option<Option<u32>>,
    full_metadata: Option<Option<bool>>,
)
    ensures
        SearchRequest::decoded(query, None, full_metadata).top_k == Some(1u32),
        SearchRequest::decoded(query, top_k, None).full_metadata == Some(true),
        SearchRequest::decoded(query, None, full_metadata).params().last() == ("top_k"@, seq!['1']),
        SearchRequest::decoded(query, top_k, None).params().first() == (
            "full_metadata"@,
            "true"@,
        ),
{
}

/// A keyword request that was sent without `top_k` asks for one result,
/// whatever its query is. The query parameters say so.
pub proof fn lemma_keyword_defaults(keyword_query: String)
    ensures
        KeywordRequest::decoded(keyword_query, None).top_k == Some(1u32),
        KeywordRequest::decoded(keyword_query, None).params() == seq![
            ("keyword_query"@, keyword_query@),
            ("top_k"@, seq!['1']),
        ],
{
}

} // verus!
