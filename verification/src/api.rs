//! The boundary to the network: requests the library wants made, replies it
//! is told about, the failures it reports and the responses it hands back to
//! the routing layer. Nothing here performs I/O.

use vstd::prelude::*;
use vstd::string::*;
use crate::text::{join, option_view, pairs_view};

verus! {

/// The HTTP verbs the library uses.
#[derive(Clone, Copy, Debug, PartialEq, Eq, Structural)]
pub enum Method {
    Get,
    Post,
}

/// A request for the caller to send to the provider.
#[derive(Clone, Debug, PartialEq, Eq)]
pub struct Request {
    pub method: Method,
    pub url: String,
    /// The bearer token of the `Authorization` header, if any.
    pub bearer: Option<String>,
    /// The `Content-Type` header, if any.
    pub content_type: Option<String>,
    /// Query parameters, to be appended to the URL.
    pub query: Vec<(String, String)>,
    /// Form fields, to be sent URL-encoded as the body.
    pub form: Vec<(String, String)>,
    /// The body, where the request carries one that is not a form.
    pub body: Option<String>,
}

/// The mathematical value of a [`Request`].
pub ghost struct RequestView {
    pub method: Method,
    pub url: Seq<char>,
    pub bearer: Option<Seq<char>>,
    pub content_type: Option<Seq<char>>,
    pub query: Seq<(Seq<char>, Seq<char>)>,
    pub form: Seq<(Seq<char>, Seq<char>)>,
    pub body: Option<Seq<char>>,
}

impl View for Request {
    type V = RequestView;

    open spec fn view(&self) -> RequestView {
        RequestView {
            method: self.method,
            url: self.url@,
            bearer: option_view(self.bearer),
            content_type: option_view(self.content_type),
            query: pairs_view(self.query@),
            form: pairs_view(self.form@),
            body: option_view(self.body),
        }
    }
}

/// What became of a request.
#[derive(Clone, Debug, PartialEq, Eq)]
pub enum Reply {
    /// The request could not be sent or no response came; the transport's
    /// message.
    Unsent(String),
    /// A response with this status came but its body could not be read; the
    /// transport's message.
    Unread { status: u16, message: String },
    /// A response with its status code and body.
    Received { status: u16, body: String },
}

/// The kinds of failure the library reports.
#[derive(Clone, Copy, Debug, PartialEq, Eq, Structural)]
pub enum ErrorKind {
    /// The network or the connection failed.
    Transport,
    /// A response body did not have the expected shape.
    Deserialization,
    /// The provider answered with a status outside 200-299.
    RemoteRejection,
    /// A lock guarding shared state could not be taken.
    Lock,
}

/// A failure: its kind and the text shown to the operator.
#[derive(Clone, Debug, PartialEq, Eq)]
pub struct Failure {
    pub kind: ErrorKind,
    pub detail: String,
}

/// The mathematical value of a [`Failure`].
pub ghost struct FailureView {
    pub kind: ErrorKind,
    pub detail: Seq<char>,
}

impl View for Failure {
    type V = FailureView;

    open spec fn view(&self) -> FailureView {
        FailureView { kind: self.kind, detail: self.detail@ }
    }
}

/// The value of a textual result.
pub open spec fn text_result_view(outcome: Result<String, Failure>) -> Result<
    Seq<char>,
    FailureView,
> {
    match outcome {
        Ok(text) => Ok(text@),
        Err(failure) => Err(failure@),
    }
}

/// The value of a result whose success is already a plain value.
pub open spec fn result_view<T>(outcome: Result<T, Failure>) -> Result<T, FailureView> {
    match outcome {
        Ok(value) => Ok(value),
        Err(failure) => Err(failure@),
    }
}

/// A failure of the given kind whose text is `prefix` followed by `message`.
pub fn failure(kind: ErrorKind, prefix: &str, message: &str) -> (made: Failure)
    ensures
        made@ == (FailureView { kind, detail: prefix@ + message@ }),
{
    Failure { kind, detail: join(prefix, message) }
}

/// What a route answers.
#[derive(Clone, Debug, PartialEq, Eq)]
pub enum Response {
    /// 200 with a body.
    Success(String),
    /// 500 with the failure's text as body.
    InternalServerError(String),
    /// 302 to a location.
    Found(String),
    /// 307 to a location.
    TemporaryRedirect(String),
}

/// The mathematical value of a [`Response`].
pub ghost enum ResponseView {
    Success(Seq<char>),
    InternalServerError(Seq<char>),
    Found(Seq<char>),
    TemporaryRedirect(Seq<char>),
}

impl View for Response {
    type V = ResponseView;

    open spec fn view(&self) -> ResponseView {
        match self {
            Response::Success(body) => ResponseView::Success(body@),
            Response::InternalServerError(body) => ResponseView::InternalServerError(body@),
            Response::Found(location) => ResponseView::Found(location@),
            Response::TemporaryRedirect(location) => ResponseView::TemporaryRedirect(location@),
        }
    }
}

impl Request {
    /// A `GET` of `url` that carries the bearer token.
    pub fn get(url: String, token: &str) -> (request: Request)
        ensures
            request@ == (RequestView {
                method: Method::Get,
                url: url@,
                bearer: Some(token@),
                content_type: None,
                query: Seq::empty(),
                form: Seq::empty(),
                body: None,
            }),
    {
        let request = Request {
            method: Method::Get,
            url,
            bearer: Some(token.to_owned()),
            content_type: None,
            query: Vec::new(),
            form: Vec::new(),
            body: None,
        };
        assert(request@.query =~= Seq::empty() && request@.form =~= Seq::empty());
        request
    }

    /// A `POST` to `url` that carries the bearer token and a body of the
    /// given content type.
    pub fn post(url: String, token: &str, content_type: String, body: String) -> (request:
        Request)
        ensures
            request@ == (RequestView {
                method: Method::Post,
                url: url@,
                bearer: Some(token@),
                content_type: Some(content_type@),
                query: Seq::empty(),
                form: Seq::empty(),
                body: Some(body@),
            }),
    {
        let request = Request {
            method: Method::Post,
            url,
            bearer: Some(token.to_owned()),
            content_type: Some(content_type),
            query: Vec::new(),
            form: Vec::new(),
            body: Some(body),
        };
        assert(request@.query =~= Seq::empty() && request@.form =~= Seq::empty());
        request
    }
}

/// Whether a status code reports success: 200 to 299.
pub open spec fn is_success(status: u16) -> bool {
    200 <= status < 300
}

/// Whether a status code reports success: 200 to 299.
#[verifier::when_used_as_spec(is_success)]
pub fn status_is_success(status: u16) -> (success: bool)
    ensures
        success == is_success(status),
{
    200 <= status && status < 300
}

/// What [`received`] yields for a reply: the status and body of a response,
/// or a transport failure whose text is the given prefix followed by the
/// transport's message.
pub open spec fn received_spec(
    reply: Reply,
    unsent_prefix: Seq<char>,
    unread_prefix: Seq<char>,
) -> Result<(u16, Seq<char>), FailureView> {
    match reply {
        Reply::Unsent(message) => Err(
            FailureView { kind: ErrorKind::Transport, detail: unsent_prefix + message@ },
        ),
        Reply::Unread { status, message } => Err(
            FailureView { kind: ErrorKind::Transport, detail: unread_prefix + message@ },
        ),
        Reply::Received { status, body } => Ok((status, body@)),
    }
}

/// The status and body of a reply that carries a response; otherwise a
/// transport failure, its text led by `unsent_prefix` where nothing was
/// sent and by `unread_prefix` where the body could not be read.
pub fn received(reply: Reply, unsent_prefix: &str, unread_prefix: &str) -> (outcome: Result<
    (u16, String),
    Failure,
>)
    ensures
        match outcome {
            Ok((status, body)) => received_spec(reply, unsent_prefix@, unread_prefix@) == Ok::<
                (u16, Seq<char>),
                FailureView,
            >((status, body@)),
            Err(failure) => received_spec(reply, unsent_prefix@, unread_prefix@) == Err::<
                (u16, Seq<char>),
                FailureView,
            >(failure@),
        },
{
    match reply {
        Reply::Unsent(message) => Err(
            failure(ErrorKind::Transport, unsent_prefix, message.as_str()),
        ),
        Reply::Unread { status: _, message } => Err(
            failure(ErrorKind::Transport, unread_prefix, message.as_str()),
        ),
        Reply::Received { status, body } => Ok((status, body)),
    }
}

/// What [`send_and_text`] yields for a reply.
pub open spec fn send_and_text_spec(reply: Reply) -> Result<Seq<char>, FailureView> {
    match reply {
        Reply::Unsent(message) => Err(
            FailureView { kind: ErrorKind::Transport, detail: "Request error:\n"@ + message@ },
        ),
        Reply::Unread { status, message } => Err(
            FailureView { kind: ErrorKind::Transport, detail: "Text error:\n"@ + message@ },
        ),
        Reply::Received { status, body } => Ok(body@),
    }
}

/// The body of the response to a request, whatever its status; or a transport
/// failure that says whether sending or reading went wrong.
pub fn send_and_text(reply: Reply) -> (outcome: Result<String, Failure>)
    ensures
        text_result_view(outcome) == send_and_text_spec(reply),
{
    match received(reply, "Request error:\n", "Text error:\n") {
        Ok((_, body)) => Ok(body),
        Err(failure) => Err(failure),
    }
}

/// The response for a result: 200 with the text, or 500 with the failure's
/// text.
pub fn ok_or_internal(value: Result<String, Failure>) -> (response: Response)
    ensures
        response@ == match value {
            Ok(body) => ResponseView::Success(body@),
            Err(failure) => ResponseView::InternalServerError(failure.detail@),
        },
{
    match value {
        Ok(body) => Response::Success(body),
        Err(failure) => Response::InternalServerError(failure.detail),
    }
}

/// Keeps a success and turns a failure into the 500 response that shows its
/// text.
pub fn map_err_internal<T>(value: Result<T, Failure>) -> (outcome: Result<T, Response>)
    ensures
        match value {
            Ok(kept) => outcome == Ok::<T, Response>(kept),
            Err(failure) => outcome matches Err(response) && response@
                == ResponseView::InternalServerError(failure.detail@),
        },
{
    match value {
        Ok(kept) => Ok(kept),
        Err(failure) => Err(Response::InternalServerError(failure.detail)),
    }
}

} // verus!
