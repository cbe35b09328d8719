use md_viewer::api::{ErrorKind, Failure, Method, Reply, Request, Response};
use md_viewer::google::auth::credentials::GoogleAuthCredentials;
use md_viewer::google::auth::login::{
    authorization_url, callback_error, google_callback, google_login, profile_info,
    profile_request, token_request, token_text, ClientOAuthData, TokenExchange,
};
use md_viewer::json::Json;
use md_viewer::state::{AppState, NeedsLogin};

fn credentials() -> GoogleAuthCredentials {
    GoogleAuthCredentials::new("ID".to_string(), "http://cb".to_string(), "SECRET-VALUE".to_string())
}

fn grant(token: &str) -> ClientOAuthData {
    ClientOAuthData {
        access_token: token.to_string(),
        expires_in: 3599,
        id_token: "idt".to_string(),
        scope: "email".to_string(),
        token_type: "Bearer".to_string(),
    }
}

const LOGIN_URL: &str = "https://accounts.google.com/o/oauth2/auth?client_id=ID&redirect_uri=http://cb&response_type=code&scope=email%20profile%20https://www.googleapis.com/auth/drive%20openid&access_type=offline";

#[test]
fn credentials_are_read_back() {
    assert_eq!(credentials().as_id(), "ID");
    assert_eq!(credentials().as_redirect_uri(), "http://cb");
}

#[test]
fn as_params_lists_the_five_fields_of_the_exchange() {
    let credentials = credentials();
    assert_eq!(
        credentials.as_params("CODE"),
        [
            ("client_id", "ID"),
            ("client_secret", "SECRET-VALUE"),
            ("code", "CODE"),
            ("redirect_uri", "http://cb"),
            ("grant_type", "authorization_code"),
        ]
    );
}

#[test]
fn as_token_is_the_access_token() {
    assert_eq!(grant("T1").as_token(), "T1");
}

#[test]
fn login_redirects_to_the_provider() {
    assert_eq!(authorization_url(&credentials()), LOGIN_URL);
    assert_eq!(google_login(&credentials()), Response::Found(LOGIN_URL.to_string()));
}

#[test]
fn token_request_posts_the_form() {
    assert_eq!(
        token_request(&credentials(), "CODE"),
        Request {
            method: Method::Post,
            url: "https://oauth2.googleapis.com/token".to_string(),
            bearer: None,
            content_type: None,
            query: vec![],
            form: vec![
                ("client_id".to_string(), "ID".to_string()),
                ("client_secret".to_string(), "SECRET-VALUE".to_string()),
                ("code".to_string(), "CODE".to_string()),
                ("redirect_uri".to_string(), "http://cb".to_string()),
                ("grant_type".to_string(), "authorization_code".to_string()),
            ],
            body: None,
        }
    );
}

#[test]
fn token_text_accepts_success_only() {
    assert_eq!(
        token_text(Reply::Received { status: 200, body: "{}".to_string() }),
        Ok("{}".to_string())
    );
    assert_eq!(
        token_text(Reply::Received { status: 400, body: "invalid_grant".to_string() }),
        Err(Failure { kind: ErrorKind::RemoteRejection, detail: "invalid_grant".to_string() })
    );
    assert_eq!(
        token_text(Reply::Unsent("down".to_string())),
        Err(Failure { kind: ErrorKind::Transport, detail: "Request error:\ndown".to_string() })
    );
    assert_eq!(
        token_text(Reply::Unread { status: 200, message: "cut".to_string() }),
        Err(Failure { kind: ErrorKind::Transport, detail: "Text error:\ncut".to_string() })
    );
}

#[test]
fn a_granted_token_is_installed_and_the_caller_resumed() {
    let mut state = AppState::new(credentials());
    state.set_callback("/drive/app-folder".to_string());
    assert_eq!(
        google_callback(&mut state, TokenExchange::Granted(grant("T1"))),
        Response::Found("/drive/app-folder".to_string())
    );
    assert_eq!(state.to_token("/x"), Ok("T1".to_string()));
    assert_eq!(state.take_callback(), "/auth/info");
    assert_eq!(callback_error(&mut state), "Unknown error");
}

#[test]
fn a_granted_token_without_resume_path_leads_to_the_profile() {
    let mut state = AppState::new(credentials());
    assert_eq!(
        google_callback(&mut state, TokenExchange::Granted(grant("T1"))),
        Response::Found("/auth/info".to_string())
    );
}

#[test]
fn a_failed_exchange_is_shown_once() {
    let mut state = AppState::new(credentials());
    state.set_callback("/kept".to_string());
    let failure = Failure { kind: ErrorKind::Transport, detail: "Request error:\ndown".to_string() };
    assert_eq!(
        google_callback(&mut state, TokenExchange::Failed(failure)),
        Response::Found("/auth/callback/error".to_string())
    );
    assert_eq!(state.to_token("/kept"), Err(NeedsLogin));
    assert_eq!(callback_error(&mut state), "Request error:\ndown");
    assert_eq!(callback_error(&mut state), "Unknown error");
}

#[test]
fn an_unreadable_answer_is_shown_with_the_decoder_message() {
    let mut state = AppState::new(credentials());
    let exchange = TokenExchange::Unreadable {
        message: "missing field `access_token`".to_string(),
        text: "{}".to_string(),
    };
    assert_eq!(
        google_callback(&mut state, exchange),
        Response::Found("/auth/callback/error".to_string())
    );
    assert_eq!(
        callback_error(&mut state),
        "Failed to parse response:\nmissing field `access_token`\nResponse:\n{}"
    );
    assert_eq!(callback_error(&mut state), "Unknown error");
}

#[test]
fn a_later_failure_replaces_the_error_kept() {
    let mut state = AppState::new(credentials());
    let first = Failure { kind: ErrorKind::Transport, detail: "one".to_string() };
    let second = Failure { kind: ErrorKind::RemoteRejection, detail: "two".to_string() };
    google_callback(&mut state, TokenExchange::Failed(first));
    google_callback(&mut state, TokenExchange::Failed(second));
    assert_eq!(callback_error(&mut state), "two");
}

#[test]
fn the_profile_is_relayed_verbatim() {
    assert_eq!(
        profile_request("T1"),
        Request::get("https://www.googleapis.com/oauth2/v2/userinfo".to_string(), "T1")
    );
    assert_eq!(
        profile_info(Reply::Received { status: 200, body: "{\"email\":\"a@b\"}".to_string() }),
        Response::Success("{\"email\":\"a@b\"}".to_string())
    );
    assert_eq!(
        profile_info(Reply::Unsent("down".to_string())),
        Response::InternalServerError("Request error:\ndown".to_string())
    );
}

fn decode(text: &str) -> TokenExchange {
    let unreadable = |message: &str| TokenExchange::Unreadable {
        message: message.to_string(),
        text: text.to_string(),
    };
    let json = match Json::parse(text) {
        Ok(json) => json,
        Err(message) => return unreadable(&message),
    };
    let string = |key: &str| json.get(key).and_then(|value| value.as_str()).map(str::to_string);
    let seconds = json.get("expires_in").and_then(|value| value.as_i64());
    match (string("access_token"), seconds, string("id_token"), string("scope"), string("token_type")) {
        (Some(access_token), Some(expires_in), Some(id_token), Some(scope), Some(token_type)) => {
            TokenExchange::Granted(ClientOAuthData {
                access_token,
                expires_in: expires_in as u32,
                id_token,
                scope,
                token_type,
            })
        }
        _ => unreadable("missing field"),
    }
}

#[test]
fn login_round_trip_resumes_the_deflected_request() {
    let mut state = AppState::new(credentials());

    let deflected = state.to_token("/auth/info");
    assert_eq!(deflected, Err(NeedsLogin));
    assert_eq!(
        deflected.unwrap_err().redirect(),
        Response::TemporaryRedirect("/auth/login".to_string())
    );

    assert_eq!(google_login(state.as_credentials()), Response::Found(LOGIN_URL.to_string()));

    let request = token_request(state.as_credentials(), "valid-code");
    assert_eq!(request.form[2], ("code".to_string(), "valid-code".to_string()));
    let reply = Reply::Received {
        status: 200,
        body: "{\"access_token\":\"T1\",\"expires_in\":3599,\"id_token\":\"idt\",\"scope\":\"email\",\"token_type\":\"Bearer\"}"
            .to_string(),
    };
    let exchange = match token_text(reply) {
        Ok(text) => decode(&text),
        Err(failure) => TokenExchange::Failed(failure),
    };
    assert_eq!(exchange, TokenExchange::Granted(grant("T1")));
    assert_eq!(google_callback(&mut state, exchange), Response::Found("/auth/info".to_string()));

    let token = state.to_token("/auth/info").unwrap();
    assert_eq!(token, "T1");
    assert_eq!(profile_request(&token).bearer, Some("T1".to_string()));
    let profile = "{\n  \"email\": \"a@b\",\n  \"id\": \"1\"\n}";
    assert_eq!(
        profile_info(Reply::Received { status: 200, body: profile.to_string() }),
        Response::Success(profile.to_string())
    );
}
