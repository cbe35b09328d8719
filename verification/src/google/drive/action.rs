//! Documents: creating one in the app folder, reading one, measuring one,
//! and replacing the text of one with as few edit operations as that takes.

use vstd::prelude::*;
use vstd::string::*;
use crate::api::{
    failure, is_success, result_view, status_is_success, text_result_view, ErrorKind, Failure,
    FailureView, Method, Reply, Request, RequestView,
};
use crate::json::{json_parse, json_text, list_view, Json, JsonValue};
use crate::text::join;

verus! {

/// How the text of a document is to be replaced.
#[derive(Clone, Copy, Debug, PartialEq, Eq, Structural)]
pub enum DocumentEditPlan {
    /// The document holds nothing and nothing is to be written.
    NoOp,
    /// The document holds nothing: the text is inserted.
    InsertOnly,
    /// Nothing is to be written: what the document holds is deleted.
    DeleteOnly,
    /// What the document holds is deleted, then the text is inserted.
    DeleteThenInsert,
}

/// One operation of a batch update. Indices count from 1, the first
/// position that can be written.
#[derive(Clone, Debug, PartialEq, Eq)]
pub enum EditOperation {
    InsertText { text: String, index: i32 },
    DeleteContentRange { start_index: i32, end_index: i32 },
}

/// The mathematical value of an [`EditOperation`].
pub ghost enum EditOperationView {
    InsertText { text: Seq<char>, index: i32 },
    DeleteContentRange { start_index: i32, end_index: i32 },
}

impl View for EditOperation {
    type V = EditOperationView;

    open spec fn view(&self) -> EditOperationView {
        match self {
            EditOperation::InsertText { text, index } => EditOperationView::InsertText {
                text: text@,
                index: *index,
            },
            EditOperation::DeleteContentRange {
                start_index,
                end_index,
            } => EditOperationView::DeleteContentRange {
                start_index: *start_index,
                end_index: *end_index,
            },
        }
    }
}

/// The values of a list of operations, one by one.
pub open spec fn operations_view(operations: Seq<EditOperation>) -> Seq<EditOperationView> {
    Seq::new(operations.len(), |i: int| operations[i]@)
}

/// The plan for a document whose content ends at `end` and that is to hold
/// `text`. A document that ends at 1 or before holds nothing.
pub open spec fn plan_spec(end: i32, text: Seq<char>) -> DocumentEditPlan {
    if end <= 1 {
        if text.len() == 0 {
            DocumentEditPlan::NoOp
        } else {
            DocumentEditPlan::InsertOnly
        }
    } else if text.len() == 0 {
        DocumentEditPlan::DeleteOnly
    } else {
        DocumentEditPlan::DeleteThenInsert
    }
}

/// The operations that carry a plan out, in the order they are to apply.
/// An empty document always gets one insertion, also of an empty text.
pub open spec fn operations_spec(end: i32, text: Seq<char>) -> Seq<EditOperationView> {
    let insert = EditOperationView::InsertText { text, index: 1 };
    let delete = EditOperationView::DeleteContentRange { start_index: 1, end_index: end };
    match plan_spec(end, text) {
        DocumentEditPlan::NoOp => seq![insert],
        DocumentEditPlan::InsertOnly => seq![insert],
        DocumentEditPlan::DeleteOnly => seq![delete],
        DocumentEditPlan::DeleteThenInsert => seq![delete, insert],
    }
}

/// The shape of every update: one batch of one or two operations. A
/// document that holds nothing gets exactly one insertion at index 1 and no
/// deletion. A document that holds something gets exactly one deletion,
/// from index 1 to its end, which comes first; the insertion at index 1
/// follows where there is text to insert, and only then.
pub proof fn law_minimal_edit(end: i32, text: Seq<char>)
    ensures
        end <= 1 ==> operations_spec(end, text) == seq![
            EditOperationView::InsertText { text, index: 1 },
        ],
        end > 1 && text.len() == 0 ==> operations_spec(end, text) == seq![
            EditOperationView::DeleteContentRange { start_index: 1, end_index: end },
        ],
        end > 1 && text.len() > 0 ==> operations_spec(end, text) == seq![
            EditOperationView::DeleteContentRange { start_index: 1, end_index: end },
            EditOperationView::InsertText { text, index: 1 },
        ],
{
}

/// Classifies an update.
pub fn plan(end: i32, text: &str) -> (chosen: DocumentEditPlan)
    ensures
        chosen == plan_spec(end, text@),
{
    if end <= 1 {
        if text.is_empty() {
            DocumentEditPlan::NoOp
        } else {
            DocumentEditPlan::InsertOnly
        }
    } else if text.is_empty() {
        DocumentEditPlan::DeleteOnly
    } else {
        DocumentEditPlan::DeleteThenInsert
    }
}

/// The operations of an update.
pub fn operations(end: i32, text: &str) -> (batch: Vec<EditOperation>)
    ensures
        operations_view(batch@) == operations_spec(end, text@),
{
    let mut batch: Vec<EditOperation> = Vec::new();
    match plan(end, text) {
        DocumentEditPlan::NoOp | DocumentEditPlan::InsertOnly => {
            batch.push(EditOperation::InsertText { text: text.to_owned(), index: 1 });
        },
        DocumentEditPlan::DeleteOnly => {
            batch.push(EditOperation::DeleteContentRange { start_index: 1, end_index: end });
        },
        DocumentEditPlan::DeleteThenInsert => {
            batch.push(EditOperation::DeleteContentRange { start_index: 1, end_index: end });
            batch.push(EditOperation::InsertText { text: text.to_owned(), index: 1 });
        },
    }
    assert(operations_view(batch@) =~= operations_spec(end, text@));
    batch
}

/// The JSON of one operation, as the provider's batch update takes it.
pub open spec fn operation_json(operation: EditOperationView) -> JsonValue {
    match operation {
        EditOperationView::InsertText { text, index } => JsonValue::Object(
            seq![
                (
                    "insertText"@,
                    JsonValue::Object(
                        seq![
                            ("text"@, JsonValue::Text(text)),
                            (
                                "location"@,
                                JsonValue::Object(seq![("index"@, JsonValue::Int(index as int))]),
                            ),
                        ],
                    ),
                ),
            ],
        ),
        EditOperationView::DeleteContentRange { start_index, end_index } => JsonValue::Object(
            seq![
                (
                    "deleteContentRange"@,
                    JsonValue::Object(
                        seq![
                            (
                                "range"@,
                                JsonValue::Object(
                                    seq![
                                        ("startIndex"@, JsonValue::Int(start_index as int)),
                                        ("endIndex"@, JsonValue::Int(end_index as int)),
                                    ],
                                ),
                            ),
                        ],
                    ),
                ),
            ],
        ),
    }
}

/// The JSON of a batch update: the operations, in order, under `requests`.
pub open spec fn batch_json(operations: Seq<EditOperationView>) -> JsonValue {
    JsonValue::Object(
        seq![
            (
                "requests"@,
                JsonValue::List(
                    Seq::new(operations.len(), |i: int| operation_json(operations[i])),
                ),
            ),
        ],
    )
}

/// The JSON of one operation.
pub fn operation_body(operation: &EditOperation) -> (json: Json)
    ensures
        json@ == operation_json(operation@),
{
    match operation {
        EditOperation::InsertText { text, index } => {
            let location = Json::single("index", Json::Int(*index as i64));
            Json::single("insertText", Json::pair("text", Json::text(text.as_str()), "location", location))
        },
        EditOperation::DeleteContentRange { start_index, end_index } => {
            let range = Json::pair(
                "startIndex",
                Json::Int(*start_index as i64),
                "endIndex",
                Json::Int(*end_index as i64),
            );
            Json::single("deleteContentRange", Json::single("range", range))
        },
    }
}

/// The JSON of a batch update.
pub fn batch_update_body(operations: &Vec<EditOperation>) -> (json: Json)
    ensures
        json@ == batch_json(operations_view(operations@)),
{
    let mut items: Vec<Json> = Vec::new();
    let mut i: usize = 0;
    while i < operations.len()
        invariant
            0 <= i <= operations.len(),
            items@.len() == i,
            forall|j: int| 0 <= j < i ==> items@[j]@ == operation_json(operations@[j]@),
        decreases operations.len() - i,
    {
        items.push(operation_body(&operations[i]));
        i += 1;
    }
    assert(list_view(items@) =~= Seq::new(
        operations_view(operations@).len(),
        |i: int| operation_json(operations_view(operations@)[i]),
    ));
    Json::single("requests", Json::list(items))
}

/// The address of a document's structure.
pub open spec fn document_url(id: Seq<char>) -> Seq<char> {
    "https://docs.googleapis.com/v1/documents/"@ + id
}

/// The address that takes a document's batch updates.
pub open spec fn batch_update_url(id: Seq<char>) -> Seq<char> {
    "https://docs.googleapis.com/v1/documents/"@ + id + ":batchUpdate"@
}

/// The address that yields a file's content as plain text.
pub open spec fn export_url(id: Seq<char>) -> Seq<char> {
    "https://www.googleapis.com/drive/v3/files/"@ + id + "/export?mimeType=text/plain"@
}

/// The request for a document's structure, from which its length is read.
pub fn document_request(id: &str, token: &str) -> (request: Request)
    ensures
        request@ == (RequestView {
            method: Method::Get,
            url: document_url(id@),
            bearer: Some(token@),
            content_type: None,
            query: Seq::empty(),
            form: Seq::empty(),
            body: None,
        }),
{
    Request::get(join("https://docs.googleapis.com/v1/documents/", id), token)
}

/// The request for a file's content as plain text.
pub fn content_request(id: &str, token: &str) -> (request: Request)
    ensures
        request@ == (RequestView {
            method: Method::Get,
            url: export_url(id@),
            bearer: Some(token@),
            content_type: None,
            query: Seq::empty(),
            form: Seq::empty(),
            body: None,
        }),
{
    let mut url = join("https://www.googleapis.com/drive/v3/files/", id);
    url.append("/export?mimeType=text/plain");
    Request::get(url, token)
}

/// The batch update that makes a document whose content ends at `end` hold
/// `content`: one request, whose operations apply together or not at all.
pub fn update_request(id: &str, content: &str, token: &str, end: i32) -> (request: Request)
    ensures
        request@ == (RequestView {
            method: Method::Post,
            url: batch_update_url(id@),
            bearer: Some(token@),
            content_type: Some("application/json"@),
            query: Seq::empty(),
            form: Seq::empty(),
            body: Some(json_text(batch_json(operations_spec(end, content@)))),
        }),
{
    let mut url = join("https://docs.googleapis.com/v1/documents/", id);
    url.append(":batchUpdate");
    let batch = operations(end, content);
    let body = batch_update_body(&batch).render();
    Request::post(url, token, String::from_str("application/json"), body)
}

/// The end index of the last element of a document's body content, where
/// the document has one that fits `i32`.
pub open spec fn end_index_spec(document: JsonValue) -> Option<i32> {
    match document.member("body"@) {
        Some(body) => match body.member("content"@) {
            Some(content) => match content.elements() {
                Some(elements) if elements.len() > 0 => match elements.last().member(
                    "endIndex"@,
                ) {
                    Some(end) => match end.integer() {
                        Some(number) if i32::MIN <= number <= i32::MAX => Some(number as i32),
                        _ => None,
                    },
                    None => None,
                },
                _ => None,
            },
            None => None,
        },
        None => None,
    }
}

/// Reads the end index of the last content element out of a document's
/// structure.
pub fn end_index(document: &Json) -> (end: Option<i32>)
    ensures
        end == end_index_spec(document@),
{
    let body = match document.get("body") {
        Some(body) => body,
        None => { return None; },
    };
    let content = match body.get("content") {
        Some(content) => content,
        None => { return None; },
    };
    let elements = match content.as_array() {
        Some(elements) => elements,
        None => { return None; },
    };
    if elements.len() == 0 {
        return None;
    }
    let last = &elements[elements.len() - 1];
    let number = match last.get("endIndex") {
        Some(end) => match end.as_i64() {
            Some(number) => number,
            None => { return None; },
        },
        None => { return None; },
    };
    match i32::try_from(number) {
        Ok(end) => Some(end),
        Err(_) => None,
    }
}

/// What [`get_document_length`] yields for a reply.
pub open spec fn document_length_spec(reply: Reply) -> Result<i32, FailureView> {
    match reply {
        Reply::Unsent(message) => Err(
            FailureView { kind: ErrorKind::Transport, detail: message@ },
        ),
        Reply::Unread { status, message } => Err(
            FailureView {
                kind: ErrorKind::Transport,
                detail: if is_success(status) {
                    "Invalid response:\n"@ + message@
                } else {
                    "Response has invalid text:\n"@ + message@
                },
            },
        ),
        Reply::Received { status, body } => if is_success(status) {
            match json_parse(body@) {
                Ok(document) => match end_index_spec(document) {
                    Some(end) => Ok(end),
                    None => Err(
                        FailureView {
                            kind: ErrorKind::Deserialization,
                            detail: "Failed to find document end index."@,
                        },
                    ),
                },
                Err(message) => Err(
                    FailureView {
                        kind: ErrorKind::Deserialization,
                        detail: "Invalid response:\n"@ + message,
                    },
                ),
            }
        } else {
            Err(
                FailureView {
                    kind: ErrorKind::RemoteRejection,
                    detail: "Failed to retrieve document info: "@ + body@,
                },
            )
        },
    }
}

/// The length of a document, read from the reply to [`document_request`]:
/// the end index of its last content element.
pub fn get_document_length(reply: Reply) -> (outcome: Result<i32, Failure>)
    ensures
        result_view(outcome) == document_length_spec(reply),
{
    match reply {
        Reply::Unsent(message) => Err(Failure { kind: ErrorKind::Transport, detail: message }),
        Reply::Unread { status, message } => {
            if status_is_success(status) {
                Err(failure(ErrorKind::Transport, "Invalid response:\n", message.as_str()))
            } else {
                Err(
                    failure(ErrorKind::Transport, "Response has invalid text:\n", message.as_str()),
                )
            }
        },
        Reply::Received { status, body } => {
            if status_is_success(status) {
                match Json::parse(body.as_str()) {
                    Ok(document) => match end_index(&document) {
                        Some(end) => Ok(end),
                        None => Err(
                            Failure {
                                kind: ErrorKind::Deserialization,
                                detail: String::from_str("Failed to find document end index."),
                            },
                        ),
                    },
                    Err(message) => Err(
                        failure(
                            ErrorKind::Deserialization,
                            "Invalid response:\n",
                            message.as_str(),
                        ),
                    ),
                }
            } else {
                Err(
                    failure(
                        ErrorKind::RemoteRejection,
                        "Failed to retrieve document info: ",
                        body.as_str(),
                    ),
                )
            }
        },
    }
}

/// What [`set_file_content`] yields: the update for the measured length,
/// or the failure to measure.
pub open spec fn set_file_content_spec(
    id: Seq<char>,
    content: Seq<char>,
    token: Seq<char>,
    measured: Reply,
) -> Result<RequestView, FailureView> {
    match document_length_spec(measured) {
        Ok(end) => Ok(
            RequestView {
                method: Method::Post,
                url: batch_update_url(id),
                bearer: Some(token),
                content_type: Some("application/json"@),
                query: Seq::empty(),
                form: Seq::empty(),
                body: Some(json_text(batch_json(operations_spec(end, content)))),
            },
        ),
        Err(failure) => Err(failure),
    }
}

/// The value of a result that holds a request.
pub open spec fn request_result_view(outcome: Result<Request, Failure>) -> Result<
    RequestView,
    FailureView,
> {
    match outcome {
        Ok(request) => Ok(request@),
        Err(failure) => Err(failure@),
    }
}

/// Plans the replacement of a document's text by `content`, given the reply
/// to [`document_request`]. Where the length cannot be read nothing is to
/// be sent and the failure is returned.
pub fn set_file_content(id: &str, content: &str, token: &str, measured: Reply) -> (outcome:
    Result<Request, Failure>)
    ensures
        request_result_view(outcome) == set_file_content_spec(id@, content@, token@, measured),
{
    match get_document_length(measured) {
        Ok(end) => Ok(update_request(id, content, token, end)),
        Err(failure) => Err(failure),
    }
}

/// What [`confirm_update`] yields for a reply.
pub open spec fn confirm_update_spec(content: Seq<char>, reply: Reply) -> Result<
    Seq<char>,
    FailureView,
> {
    match reply {
        Reply::Unsent(message) => Err(
            FailureView { kind: ErrorKind::Transport, detail: message@ },
        ),
        Reply::Unread { status, message } => Err(
            FailureView {
                kind: ErrorKind::Transport,
                detail: "Failed to get text from response:\n"@ + message@,
            },
        ),
        Reply::Received { status, body } => if is_success(status) {
            Ok("File updated with content "@ + content + "\nResponse:\n"@ + body@)
        } else {
            Err(
                FailureView {
                    kind: ErrorKind::RemoteRejection,
                    detail: "Failed to update content:\n"@ + body@,
                },
            )
        },
    }
}

/// The confirmation of an update, from the reply to the batch update: the
/// text applied and the provider's response; or the provider's rejection
/// with its body as detail.
pub fn confirm_update(content: &str, reply: Reply) -> (outcome: Result<String, Failure>)
    ensures
        text_result_view(outcome) == confirm_update_spec(content@, reply),
{
    match reply {
        Reply::Unsent(message) => Err(Failure { kind: ErrorKind::Transport, detail: message }),
        Reply::Unread { status: _, message } => Err(
            failure(ErrorKind::Transport, "Failed to get text from response:\n", message.as_str()),
        ),
        Reply::Received { status, body } => {
            if status_is_success(status) {
                let mut confirmation = join("File updated with content ", content);
                confirmation.append("\nResponse:\n");
                confirmation.append(body.as_str());
                Ok(confirmation)
            } else {
                Err(
                    failure(ErrorKind::RemoteRejection, "Failed to update content:\n", body.as_str()),
                )
            }
        },
    }
}

/// The JSON that asks for a new document named `name` in the folder
/// `folder_id`.
pub open spec fn new_document_json(name: Seq<char>, folder_id: Seq<char>) -> JsonValue {
    JsonValue::Object(
        seq![
            ("name"@, JsonValue::Text(name)),
            ("parents"@, JsonValue::List(seq![JsonValue::Text(folder_id)])),
            ("mimeType"@, JsonValue::Text("application/vnd.google-apps.document"@)),
        ],
    )
}

/// The request that creates a document named `name` in the folder
/// `folder_id`.
pub fn create_document_request(name: &str, folder_id: &str, token: &str) -> (request: Request)
    ensures
        request@ == (RequestView {
            method: Method::Post,
            url: "https://www.googleapis.com/drive/v3/files"@,
            bearer: Some(token@),
            content_type: Some("application/json"@),
            query: Seq::empty(),
            form: Seq::empty(),
            body: Some(json_text(new_document_json(name@, folder_id@))),
        }),
{
    let mut parents: Vec<Json> = Vec::new();
    parents.push(Json::text(folder_id));
    let parents = Json::list(parents);
    assert(parents@ == JsonValue::List(seq![JsonValue::Text(folder_id@)])) by {
        assert(parents@->List_0 =~= seq![JsonValue::Text(folder_id@)]);
    }
    let mut members: Vec<(String, Json)> = Vec::new();
    members.push((String::from_str("name"), Json::text(name)));
    members.push((String::from_str("parents"), parents));
    members.push(
        (String::from_str("mimeType"), Json::text("application/vnd.google-apps.document")),
    );
    let metadata = Json::object(members);
    assert(metadata@ == new_document_json(name@, folder_id@)) by {
        assert(metadata@->Object_0 =~= new_document_json(name@, folder_id@)->Object_0);
    }
    Request::post(
        String::from_str("https://www.googleapis.com/drive/v3/files"),
        token,
        String::from_str("application/json"),
        metadata.render(),
    )
}

/// The `id` of a created file, where the provider's answer holds one as a
/// string.
pub open spec fn file_id_spec(answer: JsonValue) -> Option<Seq<char>> {
    match answer.member("id"@) {
        Some(id) => id.string(),
        None => None,
    }
}

/// Reads the `id` out of the provider's answer to a file creation.
pub fn file_id(answer: &Json) -> (id: Option<String>)
    ensures
        crate::text::option_view(id) == file_id_spec(answer@),
{
    match answer.get("id") {
        Some(id) => match id.as_str() {
            Some(text) => Some(text.to_owned()),
            None => None,
        },
        None => None,
    }
}

/// What [`create_file_with_name`] yields for a reply.
pub open spec fn create_file_with_name_spec(reply: Reply) -> Result<Seq<char>, FailureView> {
    match reply {
        Reply::Unsent(message) => Err(
            FailureView { kind: ErrorKind::Transport, detail: message@ },
        ),
        Reply::Unread { status, message } => Err(
            FailureView { kind: ErrorKind::Transport, detail: message@ },
        ),
        Reply::Received { status, body } => match json_parse(body@) {
            Ok(answer) => match file_id_spec(answer) {
                Some(id) => Ok(id),
                None => Err(
                    FailureView {
                        kind: ErrorKind::Deserialization,
                        detail: "Failed to get file ID"@,
                    },
                ),
            },
            Err(message) => Err(
                FailureView { kind: ErrorKind::Deserialization, detail: message },
            ),
        },
    }
}

/// The id of the document created, from the reply to
/// [`create_document_request`].
pub fn create_file_with_name(reply: Reply) -> (outcome: Result<String, Failure>)
    ensures
        text_result_view(outcome) == create_file_with_name_spec(reply),
{
    match reply {
        Reply::Unsent(message) => Err(Failure { kind: ErrorKind::Transport, detail: message }),
        Reply::Unread { status: _, message } => Err(
            Failure { kind: ErrorKind::Transport, detail: message },
        ),
        Reply::Received { status: _, body } => match Json::parse(body.as_str()) {
            Ok(answer) => match file_id(&answer) {
                Some(id) => Ok(id),
                None => Err(
                    Failure {
                        kind: ErrorKind::Deserialization,
                        detail: String::from_str("Failed to get file ID"),
                    },
                ),
            },
            Err(message) => Err(Failure { kind: ErrorKind::Deserialization, detail: message }),
        },
    }
}

/// What [`get_file_content`] yields for a reply.
pub open spec fn get_file_content_spec(reply: Reply) -> Result<Seq<char>, FailureView> {
    match reply {
        Reply::Unsent(message) => Err(
            FailureView { kind: ErrorKind::Transport, detail: message@ },
        ),
        Reply::Unread { status, message } => Err(
            FailureView { kind: ErrorKind::Transport, detail: message@ },
        ),
        Reply::Received { status, body } => Ok(body@),
    }
}

/// The text of a file, from the reply to [`content_request`]: the body as
/// it came, whatever the status.
pub fn get_file_content(reply: Reply) -> (outcome: Result<String, Failure>)
    ensures
        text_result_view(outcome) == get_file_content_spec(reply),
{
    match reply {
        Reply::Unsent(message) => Err(Failure { kind: ErrorKind::Transport, detail: message }),
        Reply::Unread { status: _, message } => Err(
            Failure { kind: ErrorKind::Transport, detail: message },
        ),
        Reply::Received { status: _, body } => Ok(body),
    }
}

} // verus!
