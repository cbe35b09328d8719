//! The session store: the one token the process holds, the path to resume
//! after a login, and the text of the last failed login.
//!
//! The store is a plain value. Callers that share it put it behind a lock of
//! their own and hold that lock only around a call, never across a request.

use vstd::prelude::*;
use vstd::string::*;
use crate::api::{ErrorKind, Failure, FailureView, Response, ResponseView};
use crate::google::auth::credentials::{CredentialsView, GoogleAuthCredentials};
use crate::google::auth::login::{ClientOAuthData, ClientOAuthDataView};
use crate::text::join;

verus! {

/// The signal that no token is held: the caller is to be sent to the login.
#[derive(Clone, Copy, Debug, PartialEq, Eq, Structural)]
pub struct NeedsLogin;

impl NeedsLogin {
    /// The temporary redirect to the login that the signal stands for.
    pub fn redirect(&self) -> (response: Response)
        ensures
            response@ == ResponseView::TemporaryRedirect("/auth/login"@),
    {
        Response::TemporaryRedirect(String::from_str("/auth/login"))
    }
}

/// Where the session stands in the authorization flow.
#[derive(Clone, Copy, Debug, PartialEq, Eq, Structural)]
pub enum AuthPhase {
    /// No token, and no request has been deflected to the login.
    LoggedOut,
    /// No token yet; a deflected request waits to be resumed.
    AwaitingCallback,
    /// A token is held.
    LoggedIn,
}

/// The mathematical value of an [`AppState`].
pub ghost struct SessionView {
    pub app_name: Seq<char>,
    pub resume_path: Option<Seq<char>>,
    pub client_data: Option<ClientOAuthDataView>,
    pub error: Option<Seq<char>>,
    pub credentials: CredentialsView,
}

impl SessionView {
    /// The bearer token, where one is held.
    pub open spec fn token(self) -> Option<Seq<char>> {
        match self.client_data {
            Some(data) => Some(data.access_token),
            None => None,
        }
    }

    /// Where the session stands in the authorization flow.
    pub open spec fn phase(self) -> AuthPhase {
        if self.client_data is Some {
            AuthPhase::LoggedIn
        } else if self.resume_path is Some {
            AuthPhase::AwaitingCallback
        } else {
            AuthPhase::LoggedOut
        }
    }

    /// The session once `path` is recorded as the path to resume.
    pub open spec fn set_callback(self, path: Seq<char>) -> SessionView {
        SessionView { resume_path: Some(path), ..self }
    }

    /// The session once the path to resume is taken, and the path taken:
    /// the recorded one, or `/auth/info` where none is recorded.
    pub open spec fn take_callback(self) -> (SessionView, Seq<char>) {
        (
            SessionView { resume_path: None, ..self },
            match self.resume_path {
                Some(path) => path,
                None => "/auth/info"@,
            },
        )
    }

    /// The session once the token data is installed.
    pub open spec fn set_client_data(self, data: ClientOAuthDataView) -> SessionView {
        SessionView { client_data: Some(data), ..self }
    }

    /// The session after a request for `path` asked for the token, and what
    /// the request got: the token, or the signal to log in, in which case
    /// `path` is recorded as the path to resume.
    pub open spec fn to_token(self, path: Seq<char>) -> (
        SessionView,
        Result<Seq<char>, NeedsLogin>,
    ) {
        match self.client_data {
            Some(data) => (self, Ok(data.access_token)),
            None => (self.set_callback(path), Err(NeedsLogin)),
        }
    }

    /// The session once `message` is kept as the last error.
    pub open spec fn set_error(self, message: Seq<char>) -> SessionView {
        SessionView { error: Some(message), ..self }
    }

    /// The session once the last error is taken, and the text taken: the
    /// kept one, or `Unknown error` where none is kept.
    pub open spec fn take_error(self) -> (SessionView, Seq<char>) {
        (
            SessionView { error: None, ..self },
            match self.error {
                Some(message) => message,
                None => "Unknown error"@,
            },
        )
    }
}

/// The value of what a request for the token gets.
pub open spec fn token_view(outcome: Result<String, NeedsLogin>) -> Result<Seq<char>, NeedsLogin> {
    match outcome {
        Ok(token) => Ok(token@),
        Err(signal) => Err(signal),
    }
}

/// The state shared by all requests of the process.
#[derive(Clone, Debug, PartialEq, Eq)]
pub struct AppState {
    app_name: &'static str,
    callback: Option<String>,
    client_oauth_data: Option<ClientOAuthData>,
    cache: Option<String>,
    credentials: GoogleAuthCredentials,
}

impl View for AppState {
    type V = SessionView;

    closed spec fn view(&self) -> SessionView {
        SessionView {
            app_name: self.app_name@,
            resume_path: crate::text::option_view(self.callback),
            client_data: match self.client_oauth_data {
                Some(data) => Some(data@),
                None => None,
            },
            error: crate::text::option_view(self.cache),
            credentials: self.credentials@,
        }
    }
}

impl AppState {
    /// A fresh session: no token, no path to resume, no error.
    pub fn new(credentials: GoogleAuthCredentials) -> (state: AppState)
        ensures
            state@ == (SessionView {
                app_name: "mdViewer"@,
                resume_path: None,
                client_data: None,
                error: None,
                credentials: credentials@,
            }),
    {
        AppState {
            app_name: "mdViewer",
            callback: None,
            client_oauth_data: None,
            cache: None,
            credentials,
        }
    }

    /// The token for a request for `path`. Where no token is held the path
    /// is recorded as the path to resume and the signal to log in is
    /// returned.
    pub fn to_token(&mut self, path: &str) -> (outcome: Result<String, NeedsLogin>)
        ensures
            (final(self)@, token_view(outcome)) == old(self)@.to_token(path@),
    {
        match &self.client_oauth_data {
            Some(data) => Ok(data.as_token().to_owned()),
            None => {
                self.set_callback(path.to_owned());
                Err(NeedsLogin)
            },
        }
    }

    /// The application's name.
    pub fn as_app_name(&self) -> (name: &str)
        ensures
            name@ == self@.app_name,
    {
        self.app_name
    }

    /// The credentials.
    pub fn as_credentials(&self) -> (credentials: &GoogleAuthCredentials)
        ensures
            credentials@ == self@.credentials,
    {
        &self.credentials
    }

    /// Records the path to resume once the login is done.
    pub fn set_callback(&mut self, new_callback: String)
        ensures
            final(self)@ == old(self)@.set_callback(new_callback@),
    {
        self.callback = Some(new_callback);
    }

    /// Takes the path to resume: the recorded one, which is then forgotten,
    /// or `/auth/info` where none is recorded.
    pub fn take_callback(&mut self) -> (path: String)
        ensures
            (final(self)@, path@) == old(self)@.take_callback(),
    {
        match self.callback.take() {
            Some(path) => path,
            None => String::from_str("/auth/info"),
        }
    }

    /// Installs the token data, replacing what was held.
    pub fn set_client_data(&mut self, new_client_data: ClientOAuthData)
        ensures
            final(self)@ == old(self)@.set_client_data(new_client_data@),
    {
        self.client_oauth_data = Some(new_client_data);
    }

    /// Keeps the text of a failed login, replacing what was kept.
    pub fn set_error(&mut self, message: String)
        ensures
            final(self)@ == old(self)@.set_error(message@),
    {
        self.cache = Some(message);
    }

    /// Takes the text of the last failed login: the kept one, which is then
    /// forgotten, or `Unknown error` where none is kept.
    pub fn take_error(&mut self) -> (message: String)
        ensures
            (final(self)@, message@) == old(self)@.take_error(),
    {
        match self.cache.take() {
            Some(message) => message,
            None => String::from_str("Unknown error"),
        }
    }
}

/// The text that reports a lock that could not be taken.
pub open spec fn lock_error_text(data_type: Seq<char>, error: Seq<char>) -> Seq<char> {
    "Failed to obtain lock for "@ + data_type + ":\n"@ + error
}

/// The text that reports that the lock on `data_type` could not be taken
/// because of `error`.
pub fn lock_error_msg(data_type: &str, error: &str) -> (message: String)
    ensures
        message@ == lock_error_text(data_type@, error@),
{
    let mut message = join("Failed to obtain lock for ", data_type);
    message.append(":\n");
    message.append(error);
    message
}

/// What came of taking the lock on `data_type`: what the lock guards, or a
/// lock failure that names the data and shows the lock's own message.
pub fn unlock<T>(locked: Result<T, String>, data_type: &'static str) -> (outcome: Result<
    T,
    Failure,
>)
    ensures
        match locked {
            Ok(guarded) => outcome == Ok::<T, Failure>(guarded),
            Err(error) => outcome matches Err(failure) && failure@ == (FailureView {
                kind: ErrorKind::Lock,
                detail: lock_error_text(data_type@, error@),
            }),
        },
{
    match locked {
        Ok(guarded) => Ok(guarded),
        Err(error) => Err(
            Failure { kind: ErrorKind::Lock, detail: lock_error_msg(data_type, error.as_str()) },
        ),
    }
}

/// The path to resume is taken once: after it was recorded, the first
/// taking yields it and forgets it, and a second taking yields the default.
pub proof fn law_resume_path_taken_once(session: SessionView, path: Seq<char>)
    ensures
        session.set_callback(path).take_callback().1 == path,
        session.set_callback(path).take_callback().0.resume_path is None,
        session.set_callback(path).take_callback().0.take_callback().1 == "/auth/info"@,
{
}

/// The token gates every request: without a token a request gets the signal
/// to log in and its path is recorded; once a token is installed every
/// request gets that token and the session stays as it is.
pub proof fn law_token_gate(
    session: SessionView,
    path: Seq<char>,
    data: ClientOAuthDataView,
    later: Seq<char>,
)
    ensures
        session.client_data is None ==> session.to_token(path).1 == Err::<Seq<char>, NeedsLogin>(
            NeedsLogin,
        ) && session.to_token(path).0.resume_path == Some(path),
        session.set_client_data(data).to_token(later) == (
            session.set_client_data(data),
            Ok::<Seq<char>, NeedsLogin>(data.access_token),
        ),
{
}

/// The last error is shown once: whatever was kept, a second taking with no
/// failure in between yields `Unknown error`.
pub proof fn law_error_shown_once(session: SessionView)
    ensures
        session.take_error().0.take_error().1 == "Unknown error"@,
        session.take_error().0.error is None,
{
}

/// The flow only moves forward: a request without a token leaves the
/// session awaiting the callback, and installing a token leaves it logged
/// in, where asking for the token keeps it.
pub proof fn law_phases(session: SessionView, path: Seq<char>, data: ClientOAuthDataView)
    ensures
        session.phase() != AuthPhase::LoggedIn ==> session.to_token(path).0.phase()
            == AuthPhase::AwaitingCallback,
        session.set_client_data(data).phase() == AuthPhase::LoggedIn,
        session.phase() == AuthPhase::LoggedIn ==> session.to_token(path).0.phase()
            == AuthPhase::LoggedIn && session.take_callback().0.phase() == AuthPhase::LoggedIn,
{
}

} // verus!
