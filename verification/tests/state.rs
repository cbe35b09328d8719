use md_viewer::api::{ErrorKind, Failure, Response};
use md_viewer::google::auth::credentials::GoogleAuthCredentials;
use md_viewer::google::auth::login::ClientOAuthData;
use md_viewer::state::{lock_error_msg, unlock, AppState, NeedsLogin};

fn credentials() -> GoogleAuthCredentials {
    GoogleAuthCredentials::new("ID".to_string(), "http://cb".to_string(), "SECRET-VALUE".to_string())
}

fn grant(token: &str) -> ClientOAuthData {
    ClientOAuthData {
        access_token: token.to_string(),
        expires_in: 3599,
        id_token: "idt".to_string(),
        scope: "email".to_string(),
        token_type: "Bearer".to_string(),
    }
}

#[test]
fn a_fresh_session_knows_its_name_and_credentials() {
    let state = AppState::new(credentials());
    assert_eq!(state.as_app_name(), "mdViewer");
    assert_eq!(state.as_credentials(), &credentials());
}

#[test]
fn the_resume_path_is_taken_once() {
    let mut state = AppState::new(credentials());
    state.set_callback("/drive/app-folder".to_string());
    assert_eq!(state.take_callback(), "/drive/app-folder");
    assert_eq!(state.take_callback(), "/auth/info");
}

#[test]
fn the_resume_path_defaults_where_none_was_set() {
    let mut state = AppState::new(credentials());
    assert_eq!(state.take_callback(), "/auth/info");
}

#[test]
fn the_last_resume_path_set_wins() {
    let mut state = AppState::new(credentials());
    state.set_callback("/a".to_string());
    state.set_callback("/b".to_string());
    assert_eq!(state.take_callback(), "/b");
}

#[test]
fn without_a_token_the_caller_is_sent_to_login_and_the_path_recorded() {
    let mut state = AppState::new(credentials());
    assert_eq!(state.to_token("/drive/root/all"), Err(NeedsLogin));
    assert_eq!(state.to_token("/drive/root/all"), Err(NeedsLogin));
    assert_eq!(state.take_callback(), "/drive/root/all");
}

#[test]
fn with_a_token_the_caller_gets_it() {
    let mut state = AppState::new(credentials());
    state.set_callback("/kept".to_string());
    state.set_client_data(grant("T1"));
    assert_eq!(state.to_token("/x"), Ok("T1".to_string()));
    assert_eq!(state.to_token("/y"), Ok("T1".to_string()));
    assert_eq!(state.take_callback(), "/kept");
}

#[test]
fn the_last_token_installed_wins() {
    let mut state = AppState::new(credentials());
    state.set_client_data(grant("T1"));
    state.set_client_data(grant("T2"));
    assert_eq!(state.to_token("/x"), Ok("T2".to_string()));
}

#[test]
fn needs_login_is_a_temporary_redirect() {
    assert_eq!(NeedsLogin.redirect(), Response::TemporaryRedirect("/auth/login".to_string()));
}

#[test]
fn the_last_error_is_shown_once() {
    let mut state = AppState::new(credentials());
    state.set_error("first".to_string());
    state.set_error("second".to_string());
    assert_eq!(state.take_error(), "second");
    assert_eq!(state.take_error(), "Unknown error");
    assert_eq!(state.take_error(), "Unknown error");
}

#[test]
fn lock_error_msg_names_the_data() {
    assert_eq!(
        lock_error_msg("callback", "poisoned lock: another task failed inside"),
        "Failed to obtain lock for callback:\npoisoned lock: another task failed inside"
    );
}

#[test]
fn unlock_keeps_what_the_lock_guards() {
    assert_eq!(unlock(Ok(7u8), "client data"), Ok(7u8));
    assert_eq!(
        unlock::<u8>(Err("poisoned".to_string()), "client data"),
        Err(Failure {
            kind: ErrorKind::Lock,
            detail: "Failed to obtain lock for client data:\npoisoned".to_string()
        })
    );
}
