use serde_json::Value;
use smart_search_mcp::config::Endpoint;
use smart_search_mcp::search::errors::RequestError;
use smart_search_mcp::search::types::{
    AuthorSearchRequest, KeywordRequest, PapersPayload, SearchDocumentRequest, SearchRequest,
};
use smart_search_mcp::search::{classify, Method};
use smart_search_mcp::server::{
    registered_tools, BackendCall, ProtocolVersion, ServerCapabilities, SmartSearchMCP, Tool,
    ToolContent, ToolError,
};

fn pair(name: &str, value: &str) -> (String, String) {
    (name.to_string(), value.to_string())
}

fn empty_results() -> Value {
    let mut object = serde_json::Map::new();
    object.insert("results".to_string(), Value::Array(Vec::new()));
    Value::Object(object)
}

fn every_call() -> Vec<BackendCall> {
    vec![
        BackendCall::Search(SearchRequest::decode("photosynthesis".to_string(), None, None)),
        BackendCall::SearchByAuthor(AuthorSearchRequest { author: "Ada".to_string() }),
        BackendCall::UploadPapers(PapersPayload { files: vec!["paper1.txt".to_string()] }),
        BackendCall::SearchByDocId(SearchDocumentRequest { doc_id: "X123".to_string() }),
        BackendCall::SearchByKeyword(KeywordRequest::decode("chlorophyll".to_string(), None)),
    ]
}

fn context_of(call: &BackendCall) -> String {
    match call {
        BackendCall::Search(_) => "Error while fetching search results".to_string(),
        BackendCall::SearchByAuthor(_) => {
            "Error while fetching search by author results".to_string()
        }
        BackendCall::UploadPapers(_) => "Error while uploading papers".to_string(),
        BackendCall::SearchByDocId(request) => {
            format!("Error searching for document {}", request.doc_id)
        }
        BackendCall::SearchByKeyword(_) => {
            "Error while fetching search by keyword results".to_string()
        }
    }
}

#[test]
fn tools_are_registered_in_order() {
    assert_eq!(
        registered_tools(),
        vec![
            Tool::Search,
            Tool::SearchByAuthor,
            Tool::UploadPapers,
            Tool::SearchByDocId,
            Tool::SearchByKeyword,
            Tool::ListTools,
        ]
    );
}

#[test]
fn tool_names() {
    let names: Vec<&str> = registered_tools().iter().map(|tool| tool.name()).collect();
    assert_eq!(
        names,
        vec![
            "search",
            "search_by_author",
            "upload_papers",
            "search_by_doc_id",
            "search_by_keyword",
            "list_tools",
        ]
    );
}

#[test]
fn tool_descriptions() {
    assert_eq!(
        Tool::Search.description(),
        "Search papers based on the query. Never assume missing values."
    );
    assert_eq!(
        Tool::SearchByAuthor.description(),
        "Search papers based on the author's name. Never assume missing values."
    );
    assert_eq!(
        Tool::UploadPapers.description(),
        "Upload the papers as string array. Never assume missing values."
    );
    assert_eq!(
        Tool::SearchByDocId.description(),
        "Search for the document by the id. Never assume missing values."
    );
    assert_eq!(
        Tool::SearchByKeyword.description(),
        "Search for sections by keyword similarity. Never assume missing values."
    );
    assert_eq!(Tool::ListTools.description(), "list all the available tools.");
}

#[test]
fn tool_endpoints_and_methods() {
    assert_eq!(Tool::Search.endpoint(), Some(Endpoint::Search));
    assert_eq!(Tool::SearchByAuthor.endpoint(), Some(Endpoint::SearchByAuthor));
    assert_eq!(Tool::UploadPapers.endpoint(), Some(Endpoint::UploadPapers));
    assert_eq!(Tool::SearchByDocId.endpoint(), Some(Endpoint::SearchByDocId));
    assert_eq!(Tool::SearchByKeyword.endpoint(), Some(Endpoint::SearchByKeyword));
    assert_eq!(Tool::ListTools.endpoint(), None);
    assert_eq!(Tool::Search.method(), Some(Method::Get));
    assert_eq!(Tool::SearchByAuthor.method(), Some(Method::Get));
    assert_eq!(Tool::UploadPapers.method(), Some(Method::Post));
    assert_eq!(Tool::SearchByDocId.method(), Some(Method::Get));
    assert_eq!(Tool::SearchByKeyword.method(), Some(Method::Get));
    assert_eq!(Tool::ListTools.method(), None);
}

#[test]
fn call_knows_its_tool() {
    let tools: Vec<Tool> = every_call().iter().map(|call| call.tool()).collect();
    assert_eq!(
        tools,
        vec![
            Tool::Search,
            Tool::SearchByAuthor,
            Tool::UploadPapers,
            Tool::SearchByDocId,
            Tool::SearchByKeyword,
        ]
    );
}

#[test]
fn new_server_uses_configured_backend() {
    assert_eq!(SmartSearchMCP::new().client.base_url, "http://127.0.0.1:8000");
}

#[test]
fn search_request() {
    let query = SearchRequest::decode("photosynthesis".to_string(), None, None);
    let request = SmartSearchMCP::new().search(&query);
    assert_eq!(request.method, Method::Get);
    assert_eq!(request.url, "http://127.0.0.1:8000/search");
    assert_eq!(request.headers, vec![pair("content-type", "application/json")]);
    assert_eq!(
        request.query,
        Some(vec![
            pair("full_metadata", "true"),
            pair("query", "photosynthesis"),
            pair("top_k", "1"),
        ])
    );
    assert!(request.multipart.is_none());
}

#[test]
fn search_by_author_request() {
    let query = AuthorSearchRequest { author: "Ada Lovelace".to_string() };
    let request = SmartSearchMCP::new().search_by_author(&query);
    assert_eq!(request.method, Method::Get);
    assert_eq!(request.url, "http://127.0.0.1:8000/search_by_author");
    assert_eq!(request.headers, vec![pair("content-type", "application/json")]);
    assert_eq!(request.query, Some(vec![pair("author", "Ada Lovelace")]));
    assert!(request.multipart.is_none());
}

#[test]
fn search_by_doc_id_request() {
    let params = SearchDocumentRequest { doc_id: "X123".to_string() };
    let request = SmartSearchMCP::new().search_by_doc_id(&params);
    assert_eq!(request.method, Method::Get);
    assert_eq!(request.url, "http://127.0.0.1:8000/document_details_by_id");
    assert_eq!(request.headers, vec![pair("content-type", "application/json")]);
    assert_eq!(request.query, Some(vec![pair("doc_id", "X123")]));
    assert!(request.multipart.is_none());
}

#[test]
fn search_by_keyword_request() {
    let query = KeywordRequest::decode("chlorophyll".to_string(), Some(Some(4)));
    let request = SmartSearchMCP::new().search_by_keyword(&query);
    assert_eq!(request.method, Method::Get);
    assert_eq!(request.url, "http://127.0.0.1:8000/search_by_keyword");
    assert_eq!(request.headers, vec![pair("content-type", "application/json")]);
    assert_eq!(
        request.query,
        Some(vec![pair("keyword_query", "chlorophyll"), pair("top_k", "4")])
    );
    assert!(request.multipart.is_none());
}

#[test]
fn dispatch_agrees_with_the_tools() {
    let server = SmartSearchMCP::new();
    for call in every_call() {
        let request = server.dispatch(&call);
        let direct = match &call {
            BackendCall::Search(query) => server.search(query),
            BackendCall::SearchByAuthor(query) => server.search_by_author(query),
            BackendCall::UploadPapers(payload) => server.upload_papers(payload),
            BackendCall::SearchByDocId(params) => server.search_by_doc_id(params),
            BackendCall::SearchByKeyword(query) => server.search_by_keyword(query),
        };
        assert_eq!(request.method, direct.method);
        assert_eq!(request.url, direct.url);
        assert_eq!(request.headers, direct.headers);
        assert_eq!(request.query, direct.query);
        assert_eq!(request.multipart.is_some(), direct.multipart.is_some());
        assert_eq!(Some(request.method), call.tool().method());
        assert_eq!(
            request.url,
            call.tool().endpoint().unwrap().url(server.client.base_url.as_str())
        );
    }
}

#[test]
fn search_success_hands_on_the_backend_value() {
    let server = SmartSearchMCP::new();
    let call = BackendCall::Search(SearchRequest::decode("photosynthesis".to_string(), None, None));
    let result = server.respond(&call, classify(200, "{\"results\": []}"));
    assert_eq!(result, Ok(ToolContent::Json(empty_results())));
    match result {
        Ok(ToolContent::Json(value)) => {
            assert_eq!(serde_json::to_string(&value).unwrap(), "{\"results\":[]}");
        }
        other => panic!("unexpected result: {:?}", other),
    }
}

#[test]
fn every_tool_hands_on_the_backend_value() {
    let server = SmartSearchMCP::new();
    for call in every_call() {
        let result = server.respond(&call, classify(200, "[1, 2, {\"a\": null}]"));
        let expected: Value = serde_json::from_str("[1, 2, {\"a\": null}]").unwrap();
        assert_eq!(result, Ok(ToolContent::Json(expected)));
    }
}

#[test]
fn status_422_fails_every_tool() {
    let server = SmartSearchMCP::new();
    for call in every_call() {
        let error = server.respond(&call, classify(422, "")).unwrap_err();
        assert!(error.message.contains("Could not process request"));
        assert_eq!(
            error.message,
            format!("{}: Search API Error (422): Could not process request", context_of(&call))
        );
    }
}

#[test]
fn status_500_fails_every_tool() {
    let server = SmartSearchMCP::new();
    for call in every_call() {
        let error = server.respond(&call, classify(500, "")).unwrap_err();
        assert!(error.message.contains("Request failed"));
        assert_eq!(
            error.message,
            format!("{}: Search API Error (500): Request failed", context_of(&call))
        );
    }
}

#[test]
fn missing_document_is_named_in_the_error() {
    let server = SmartSearchMCP::new();
    let params = SearchDocumentRequest { doc_id: "X123".to_string() };
    let request = server.search_by_doc_id(&params);
    assert_eq!(request.query, Some(vec![pair("doc_id", "X123")]));
    let call = BackendCall::SearchByDocId(params);
    let error = server.respond(&call, classify(404, "{\"detail\": \"Not Found\"}")).unwrap_err();
    assert!(error.message.contains("X123"));
    assert!(error.message.contains("Request failed"));
    assert_eq!(
        error.message,
        "Error searching for document X123: Search API Error (404): Request failed"
    );
}

#[test]
fn malformed_body_fails_the_tool() {
    let server = SmartSearchMCP::new();
    let shown = serde_json::from_str::<Value>("<html>").unwrap_err().to_string();
    for call in every_call() {
        let error = server.respond(&call, classify(200, "<html>")).unwrap_err();
        assert_eq!(
            error.message,
            format!("{}: JSON parsing failed: {}", context_of(&call), shown)
        );
    }
}

#[test]
fn transport_failure_fails_the_tool() {
    let server = SmartSearchMCP::new();
    for call in every_call() {
        let cause = reqwest::Client::new().get("no scheme").build().unwrap_err();
        let shown = cause.to_string();
        let error = server.respond(&call, Err(RequestError::from(cause))).unwrap_err();
        assert_eq!(
            error.message,
            format!("{}: HTTP request failed: {}", context_of(&call), shown)
        );
    }
}

#[test]
fn failure_joins_context_and_cause() {
    for call in every_call() {
        assert_eq!(
            SmartSearchMCP::failure(&call, "boom"),
            ToolError { message: format!("{}: boom", context_of(&call)) }
        );
        assert_eq!(SmartSearchMCP::failure(&call, "").message, format!("{}: ", context_of(&call)));
    }
}

#[test]
fn list_tools_names_the_six_tools() {
    let result = SmartSearchMCP::new().list_tools();
    assert_eq!(
        result,
        Ok(ToolContent::Text(
            "search\nsearch_by_author\nupload_papers\nsearch_by_doc_id\nsearch_by_keyword\nlist_tools"
                .to_string()
        ))
    );
}

#[test]
fn list_tools_is_stable() {
    let server = SmartSearchMCP::new();
    let first = server.list_tools();
    for _ in 0..10 {
        assert_eq!(server.list_tools(), first);
    }
    assert_eq!(SmartSearchMCP::new().list_tools(), first);
    let listing = match first {
        Ok(ToolContent::Text(listing)) => listing,
        other => panic!("unexpected result: {:?}", other),
    };
    let names: Vec<&str> = listing.lines().collect();
    assert_eq!(names.len(), 6);
    for (i, a) in names.iter().enumerate() {
        for (j, b) in names.iter().enumerate() {
            assert_eq!(i == j, a == b);
        }
    }
}

#[test]
fn server_info() {
    let info = SmartSearchMCP::new().get_info();
    assert_eq!(info.protocol_version, ProtocolVersion::V2024_11_05);
    assert_eq!(info.capabilities, ServerCapabilities { tools: true });
    assert_eq!(
        info.instructions,
        Some(
            "This server provides the following tools: \nsearch\nsearch_by_author\nupload_papers\nsearch_by_doc_id\nsearch_by_keyword\nlist_tools."
                .to_string()
        )
    );
}

#[test]
fn instructions_follow_the_tool_list() {
    let server = SmartSearchMCP::new();
    let listing = match server.list_tools() {
        Ok(ToolContent::Text(listing)) => listing,
        other => panic!("unexpected result: {:?}", other),
    };
    assert_eq!(
        server.get_info().instructions,
        Some(format!("This server provides the following tools: \n{}.", listing))
    );
}
