use smart_search_mcp::search::types::{
    AuthorSearchRequest, KeywordRequest, SearchDocumentRequest, SearchRequest,
};

fn pair(name: &str, value: &str) -> (String, String) {
    (name.to_string(), value.to_string())
}

#[test]
fn search_params_with_defaults() {
    let request = SearchRequest::decode("photosynthesis".to_string(), None, None);
    assert_eq!(
        request.query_params(),
        vec![pair("full_metadata", "true"), pair("query", "photosynthesis"), pair("top_k", "1")]
    );
}

#[test]
fn search_params_with_sent_values() {
    let request = SearchRequest {
        query: "light reactions".to_string(),
        top_k: Some(12),
        full_metadata: Some(false),
    };
    assert_eq!(
        request.query_params(),
        vec![pair("full_metadata", "false"), pair("query", "light reactions"), pair("top_k", "12")]
    );
}

#[test]
fn search_params_leave_out_fields_that_hold_nothing() {
    let request = SearchRequest { query: "q".to_string(), top_k: None, full_metadata: None };
    assert_eq!(request.query_params(), vec![pair("query", "q")]);
    let request = SearchRequest { query: "q".to_string(), top_k: Some(3), full_metadata: None };
    assert_eq!(request.query_params(), vec![pair("query", "q"), pair("top_k", "3")]);
    let request = SearchRequest { query: "q".to_string(), top_k: None, full_metadata: Some(true) };
    assert_eq!(request.query_params(), vec![pair("full_metadata", "true"), pair("query", "q")]);
}

#[test]
fn search_params_write_top_k_in_decimal() {
    let request =
        SearchRequest { query: "q".to_string(), top_k: Some(u32::MAX), full_metadata: None };
    assert_eq!(request.query_params(), vec![pair("query", "q"), pair("top_k", "4294967295")]);
    let request = SearchRequest { query: "q".to_string(), top_k: Some(0), full_metadata: None };
    assert_eq!(request.query_params(), vec![pair("query", "q"), pair("top_k", "0")]);
}

#[test]
fn author_params() {
    let request = AuthorSearchRequest { author: "Ada Lovelace".to_string() };
    assert_eq!(request.query_params(), vec![pair("author", "Ada Lovelace")]);
}

#[test]
fn document_params() {
    let request = SearchDocumentRequest { doc_id: "X123".to_string() };
    assert_eq!(request.query_params(), vec![pair("doc_id", "X123")]);
}

#[test]
fn keyword_params_with_default() {
    let request = KeywordRequest::decode("chlorophyll".to_string(), None);
    assert_eq!(
        request.query_params(),
        vec![pair("keyword_query", "chlorophyll"), pair("top_k", "1")]
    );
}

#[test]
fn keyword_params_without_top_k() {
    let request = KeywordRequest { keyword_query: "chlorophyll".to_string(), top_k: None };
    assert_eq!(request.query_params(), vec![pair("keyword_query", "chlorophyll")]);
}
