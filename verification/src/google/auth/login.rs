//! The authorization-code flow: the redirect to the provider's login, the
//! exchange of the code that comes back for a token, and the profile.

use vstd::prelude::*;
use vstd::string::*;
use crate::api::{
    is_success, ok_or_internal, send_and_text, send_and_text_spec, status_is_success,
    text_result_view, ErrorKind, Failure, FailureView, Method, Reply, Request, RequestView,
    Response, ResponseView,
};
use crate::google::auth::credentials::{
    params_view, token_form, CredentialsView, GoogleAuthCredentials,
};
use crate::state::{AppState, SessionView};
use crate::text::{join, pairs_view};

verus! {

/// What the provider grants in exchange for an authorization code.
#[derive(Clone, Debug, PartialEq, Eq)]
pub struct ClientOAuthData {
    pub access_token: String,
    pub expires_in: u32,
    pub id_token: String,
    pub scope: String,
    pub token_type: String,
}

/// The mathematical value of [`ClientOAuthData`].
pub ghost struct ClientOAuthDataView {
    pub access_token: Seq<char>,
    pub expires_in: u32,
    pub id_token: Seq<char>,
    pub scope: Seq<char>,
    pub token_type: Seq<char>,
}

impl View for ClientOAuthData {
    type V = ClientOAuthDataView;

    open spec fn view(&self) -> ClientOAuthDataView {
        ClientOAuthDataView {
            access_token: self.access_token@,
            expires_in: self.expires_in,
            id_token: self.id_token@,
            scope: self.scope@,
            token_type: self.token_type@,
        }
    }
}

impl ClientOAuthData {
    /// The bearer token.
    pub fn as_token(&self) -> (token: &str)
        ensures
            token@ == self@.access_token,
    {
        self.access_token.as_str()
    }
}

/// The address of the provider's login for the credentials: the client id,
/// the redirect URI, the fixed scope and offline access.
pub open spec fn authorization_url_spec(credentials: CredentialsView) -> Seq<char> {
    "https://accounts.google.com/o/oauth2/auth?client_id="@ + credentials.id + "&redirect_uri="@
        + credentials.redirect_uri
        + "&response_type=code&scope=email%20profile%20https://www.googleapis.com/auth/drive%20openid&access_type=offline"@
}

/// The address of the provider's login for the credentials.
pub fn authorization_url(credentials: &GoogleAuthCredentials) -> (url: String)
    ensures
        url@ == authorization_url_spec(credentials@),
{
    let mut url = join(
        "https://accounts.google.com/o/oauth2/auth?client_id=",
        credentials.as_id().as_str(),
    );
    url.append("&redirect_uri=");
    url.append(credentials.as_redirect_uri().as_str());
    url.append(
        "&response_type=code&scope=email%20profile%20https://www.googleapis.com/auth/drive%20openid&access_type=offline",
    );
    url
}

/// The login: a redirect to the provider's login. The session is not
/// touched.
pub fn google_login(credentials: &GoogleAuthCredentials) -> (response: Response)
    ensures
        response@ == ResponseView::Found(authorization_url_spec(credentials@)),
{
    Response::Found(authorization_url(credentials))
}

/// The request that exchanges the authorization code `code` for a token.
pub fn token_request(credentials: &GoogleAuthCredentials, code: &str) -> (request: Request)
    ensures
        request@ == (RequestView {
            method: Method::Post,
            url: "https://oauth2.googleapis.com/token"@,
            bearer: None,
            content_type: None,
            query: Seq::empty(),
            form: token_form(credentials@, code@),
            body: None,
        }),
{
    let params = credentials.as_params(code);
    let mut form: Vec<(String, String)> = Vec::new();
    let mut i: usize = 0;
    while i < 5
        invariant
            0 <= i <= 5,
            params@.len() == 5,
            form@.len() == i,
            forall|j: int|
                0 <= j < i ==> (#[trigger] form@[j]).0@ == params@[j].0@ && form@[j].1@
                    == params@[j].1@,
        decreases 5 - i,
    {
        form.push((params[i].0.to_owned(), params[i].1.to_owned()));
        i += 1;
    }
    assert(pairs_view(form@) =~= params_view(params@));
    let request = Request {
        method: Method::Post,
        url: String::from_str("https://oauth2.googleapis.com/token"),
        bearer: None,
        content_type: None,
        query: Vec::new(),
        form,
        body: None,
    };
    assert(request@.query =~= Seq::empty());
    request
}

/// What [`token_text`] yields for a reply.
pub open spec fn token_text_spec(reply: Reply) -> Result<Seq<char>, FailureView> {
    match reply {
        Reply::Received { status, body } => if is_success(status) {
            Ok(body@)
        } else {
            Err(FailureView { kind: ErrorKind::RemoteRejection, detail: body@ })
        },
        _ => send_and_text_spec(reply),
    }
}

/// The body of the provider's answer to [`token_request`], where the
/// provider accepted the exchange; its body as the detail of a rejection
/// where it did not; or the transport failure.
pub fn token_text(reply: Reply) -> (outcome: Result<String, Failure>)
    ensures
        text_result_view(outcome) == token_text_spec(reply),
{
    match reply {
        Reply::Received { status, body } => {
            if status_is_success(status) {
                Ok(body)
            } else {
                Err(Failure { kind: ErrorKind::RemoteRejection, detail: body })
            }
        },
        other => send_and_text(other),
    }
}

/// What came of the token exchange.
#[derive(Clone, Debug, PartialEq, Eq)]
pub enum TokenExchange {
    /// The provider's answer could not be had.
    Failed(Failure),
    /// The provider's answer is not token data: the decoder's message and
    /// the answer.
    Unreadable { message: String, text: String },
    /// The provider granted a token.
    Granted(ClientOAuthData),
}

/// The mathematical value of a [`TokenExchange`].
pub ghost enum TokenExchangeView {
    Failed(FailureView),
    Unreadable { message: Seq<char>, text: Seq<char> },
    Granted(ClientOAuthDataView),
}

impl View for TokenExchange {
    type V = TokenExchangeView;

    open spec fn view(&self) -> TokenExchangeView {
        match self {
            TokenExchange::Failed(failure) => TokenExchangeView::Failed(failure@),
            TokenExchange::Unreadable { message, text } => TokenExchangeView::Unreadable {
                message: message@,
                text: text@,
            },
            TokenExchange::Granted(data) => TokenExchangeView::Granted(data@),
        }
    }
}

/// The text shown for an exchange that did not grant a token.
pub open spec fn exchange_error(exchange: TokenExchangeView) -> Seq<char> {
    match exchange {
        TokenExchangeView::Failed(failure) => failure.detail,
        TokenExchangeView::Unreadable { message, text } => "Failed to parse response:\n"@ + message
            + "\nResponse:\n"@ + text,
        TokenExchangeView::Granted(_) => Seq::empty(),
    }
}

/// The session after the callback and the callback's answer. A granted
/// token is installed and the caller is sent on to the path to resume,
/// which is taken. Anything else is kept as the last error and the caller
/// is sent to the page that shows it.
pub open spec fn callback_spec(session: SessionView, exchange: TokenExchangeView) -> (
    SessionView,
    ResponseView,
) {
    match exchange {
        TokenExchangeView::Granted(data) => {
            let (after, path) = session.set_client_data(data).take_callback();
            (after, ResponseView::Found(path))
        },
        _ => (
            session.set_error(exchange_error(exchange)),
            ResponseView::Found("/auth/callback/error"@),
        ),
    }
}

/// The callback: concludes the login with what came of the token exchange.
pub fn google_callback(state: &mut AppState, exchange: TokenExchange) -> (response: Response)
    ensures
        (final(state)@, response@) == callback_spec(old(state)@, exchange@),
{
    match exchange {
        TokenExchange::Granted(data) => {
            state.set_client_data(data);
            Response::Found(state.take_callback())
        },
        TokenExchange::Failed(failure) => {
            state.set_error(failure.detail);
            Response::Found(String::from_str("/auth/callback/error"))
        },
        TokenExchange::Unreadable { message, text } => {
            let mut shown = join("Failed to parse response:\n", message.as_str());
            shown.append("\nResponse:\n");
            shown.append(text.as_str());
            state.set_error(shown);
            Response::Found(String::from_str("/auth/callback/error"))
        },
    }
}

/// The page that shows why the last login failed. It shows the text once:
/// the text is forgotten with the showing.
pub fn callback_error(state: &mut AppState) -> (shown: String)
    ensures
        (final(state)@, shown@) == old(state)@.take_error(),
{
    state.take_error()
}

/// The request for the profile of the user that the token stands for.
pub fn profile_request(token: &str) -> (request: Request)
    ensures
        request@ == (RequestView {
            method: Method::Get,
            url: "https://www.googleapis.com/oauth2/v2/userinfo"@,
            bearer: Some(token@),
            content_type: None,
            query: Seq::empty(),
            form: Seq::empty(),
            body: None,
        }),
{
    Request::get(String::from_str("https://www.googleapis.com/oauth2/v2/userinfo"), token)
}

/// The profile page: the provider's answer to [`profile_request`] as it
/// came, or the transport failure as a 500.
pub fn profile_info(reply: Reply) -> (response: Response)
    ensures
        response@ == match send_and_text_spec(reply) {
            Ok(body) => ResponseView::Success(body),
            Err(failure) => ResponseView::InternalServerError(failure.detail),
        },
{
    ok_or_internal(send_and_text(reply))
}

} // verus!
