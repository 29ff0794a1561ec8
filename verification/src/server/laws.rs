//! What holds of every tool call, whatever its request.

use crate::search::errors::{api_text, RequestError, STATUS_UNPROCESSABLE};
use crate::search::json::json_parse;
use crate::search::multipart::FILES_FIELD;
use crate::search::types::{PapersPayload, SearchDocumentRequest};
use crate::search::{
    is_outcome, is_status_failure, Method, FAILED_MESSAGE, STATUS_OK, UNPROCESSABLE_MESSAGE,
};
use crate::server::{is_result, tool_names, BackendCall, ToolContent, ToolError};
use crate::text::{contains, decimal, lemma_contains_pieces, occurs_at};
use serde_json::Value;
use vstd::prelude::*;

verus! {

/// The message of a call that failed on a status closes with the message
/// that the status stands for.
proof fn lemma_status_failure_message(
    call: BackendCall,
    status: u16,
    cause: RequestError,
    message: Seq<char>,
)
    requires
        is_status_failure(cause, status),
        exists|text: Seq<char>|
            #![trigger cause.has_text(text)]
            cause.has_text(text) && message == call.failure_message(text),
    ensures
        contains(message, cause->Api_message@),
{
    let text = choose|text: Seq<char>|
        #![trigger cause.has_text(text)]
        cause.has_text(text) && message == call.failure_message(text);
    let shown = cause->Api_message@;
    assert(text == api_text(status, shown));
    let head = call.failure_context() + ": "@ + "Search API Error ("@ + decimal(status as nat)
        + "): "@;
    assert(message =~= head + shown + Seq::<char>::empty());
    lemma_contains_pieces(head, shown, Seq::<char>::empty());
}

/// Every failure of a backend call becomes one error, and its message opens
/// with the words that name the call.
pub proof fn lemma_failure_names_call(
    call: BackendCall,
    outcome: Result<Value, RequestError>,
    result: Result<ToolContent, ToolError>,
)
    requires
        outcome is Err,
        is_result(result, call, outcome),
    ensures
        result matches Err(error) && occurs_at(error.message@, call.failure_context(), 0),
{
    let cause = outcome->Err_0;
    let message = result->Err_0.message@;
    let text = choose|text: Seq<char>|
        #![trigger cause.has_text(text)]
        cause.has_text(text) && message == call.failure_message(text);
    let context = call.failure_context();
    assert(message.subrange(0, context.len() as int) =~= context);
}

/// A backend that answers 200 makes every call succeed where the body is
/// JSON, and the result is then the value of the body, unchanged. Where the
/// body is no JSON the call fails.
pub proof fn lemma_value_is_handed_on(
    call: BackendCall,
    body: Seq<char>,
    outcome: Result<Value, RequestError>,
    result: Result<ToolContent, ToolError>,
)
    requires
        is_outcome(outcome, STATUS_OK, body),
        is_result(result, call, outcome),
    ensures
        match json_parse(body) {
            Ok(value) => result == Ok::<ToolContent, ToolError>(ToolContent::Json(value)),
            Err(_) => result is Err,
        },
{
}

/// A backend that answers 422 makes every call fail, and the message of the
/// error holds the words for a request that could not be processed.
pub proof fn lemma_unprocessable_is_reported(
    call: BackendCall,
    body: Seq<char>,
    outcome: Result<Value, RequestError>,
    result: Result<ToolContent, ToolError>,
)
    requires
        is_outcome(outcome, STATUS_UNPROCESSABLE, body),
        is_result(result, call, outcome),
    ensures
        result matches Err(error) && contains(error.message@, UNPROCESSABLE_MESSAGE@),
{
    lemma_status_failure_message(
        call,
        STATUS_UNPROCESSABLE,
        outcome->Err_0,
        result->Err_0.message@,
    );
}

/// A backend that answers with a status other than 200 and 422, such as 404
/// or 500, makes every call fail, and the message of the error holds the
/// words for a failed request.
pub proof fn lemma_failed_status_is_reported(
    call: BackendCall,
    status: u16,
    body: Seq<char>,
    outcome: Result<Value, RequestError>,
    result: Result<ToolContent, ToolError>,
)
    requires
        status != STATUS_OK,
        status != STATUS_UNPROCESSABLE,
        is_outcome(outcome, status, body),
        is_result(result, call, outcome),
    ensures
        result matches Err(error) && contains(error.message@, FAILED_MESSAGE@),
{
    lemma_status_failure_message(call, status, outcome->Err_0, result->Err_0.message@);
}

/// The error of a document lookup that failed names the document, whatever
/// went wrong.
pub proof fn lemma_lookup_failure_names_document(
    request: SearchDocumentRequest,
    outcome: Result<Value, RequestError>,
    result: Result<ToolContent, ToolError>,
)
    requires
        outcome is Err,
        is_result(result, BackendCall::SearchByDocId(request), outcome),
    ensures
        result matches Err(error) && contains(error.message@, request.doc_id@),
{
    let call = BackendCall::SearchByDocId(request);
    let cause = outcome->Err_0;
    let message = result->Err_0.message@;
    let text = choose|text: Seq<char>|
        #![trigger cause.has_text(text)]
        cause.has_text(text) && message == call.failure_message(text);
    let tail = ": "@ + text;
    assert(message =~= "Error searching for document "@ + request.doc_id@ + tail);
    lemma_contains_pieces("Error searching for document "@, request.doc_id@, tail);
}

/// An upload sends one part per file, in the order of the files, each under
/// the field name for files; it is posted and carries no query. That holds
/// of an empty list too, whose request has no part.
pub proof fn lemma_upload_sends_each_file(payload: PapersPayload, base: Seq<char>)
    ensures
        BackendCall::UploadPapers(payload).request(base).method == Method::Post,
        BackendCall::UploadPapers(payload).request(base).query is None,
        BackendCall::UploadPapers(payload).request(base).parts matches Some(parts) && parts.len()
            == payload.files.len() && forall|i: int|
            0 <= i < payload.files.len() ==> #[trigger] parts[i] == (
                FILES_FIELD@,
                payload.files[i]@,
            ),
{
}

/// Every call carries one payload, announced by one header: query
/// parameters with a GET, a multipart body with a POST.
pub proof fn lemma_one_payload_per_call(call: BackendCall, base: Seq<char>)
    ensures
        call.request(base).method == Method::Get <==> call.request(base).query is Some,
        call.request(base).method == Method::Post <==> call.request(base).parts is Some,
        call.request(base).query is Some <==> call.request(base).parts is None,
        call.request(base).headers.len() == 1,
{
}

/// A call goes to the endpoint of its tool, by the method of its tool.
pub proof fn lemma_call_follows_its_tool(call: BackendCall)
    ensures
        call.tool_of().endpoint_of() == Some(call.endpoint_of()),
        call.tool_of().method_of() == Some(call.method_of()),
{
}

/// Six tools are registered, under six different names, and their order is
/// fixed.
pub proof fn lemma_six_tools()
    ensures
        tool_names() == seq![
            "search"@,
            "search_by_author"@,
            "upload_papers"@,
            "search_by_doc_id"@,
            "search_by_keyword"@,
            "list_tools"@,
        ],
        tool_names().len() == 6,
        tool_names().no_duplicates(),
{
    reveal_strlit("search");
    reveal_strlit("search_by_author");
    reveal_strlit("upload_papers");
    reveal_strlit("search_by_doc_id");
    reveal_strlit("search_by_keyword");
    reveal_strlit("list_tools");
    let names = tool_names();
    assert forall|i: int, j: int| 0 <= i < names.len() && 0 <= j < names.len() && i != j implies names[i]
        != names[j] by {
        if names[i] == names[j] {
            assert(names[i].len() == names[j].len());
            assert(names[i][10] == names[j][10]);
        }
    }
}

} // verus!
