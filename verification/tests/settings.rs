use md_viewer::google::auth::credentials::GoogleAuthCredentials;
use md_viewer::settings::{get_var_error, load_env, parse_port, Env, Variables};

fn some(text: &str) -> Option<String> {
    Some(text.to_string())
}

fn full() -> Variables {
    Variables {
        id: some("ID"),
        redirect_uri: some("http://cb"),
        secret: some("SECRET-VALUE"),
        host: some("0.0.0.0"),
        port: some("9000"),
        app_folder: some("docs"),
    }
}

fn credentials() -> GoogleAuthCredentials {
    GoogleAuthCredentials::new("ID".to_string(), "http://cb".to_string(), "SECRET-VALUE".to_string())
}

#[test]
fn parse_port_reads_decimal_numbers() {
    assert_eq!(parse_port("0"), Some(0));
    assert_eq!(parse_port("8080"), Some(8080));
    assert_eq!(parse_port("65535"), Some(65535));
    assert_eq!(parse_port("+443"), Some(443));
    assert_eq!(parse_port("000000000080"), Some(80));
}

#[test]
fn parse_port_refuses_everything_else() {
    for text in ["", "+", "-1", "65536", "99999999999999999999", "80 ", " 80", "8o", "++1", "1+", "٣"] {
        assert_eq!(parse_port(text), None, "{:?}", text);
        assert_eq!(parse_port(text), text.parse::<u16>().ok(), "{:?}", text);
    }
}

#[test]
fn parse_port_agrees_with_the_standard_parser() {
    for text in ["0", "1", "+0", "007", "65535", "65536", "70000", "655350", "12a", "a12", "+", "+-1"] {
        assert_eq!(parse_port(text), text.parse::<u16>().ok(), "{:?}", text);
    }
}

#[test]
fn load_env_takes_what_is_given() {
    assert_eq!(
        load_env(full()),
        Ok(Env {
            credentials: credentials(),
            addr: ("0.0.0.0".to_string(), 9000),
            app_folder: "docs".to_string(),
        })
    );
}

#[test]
fn load_env_falls_back_to_defaults() {
    let variables = Variables { host: None, port: None, app_folder: None, ..full() };
    assert_eq!(
        load_env(variables),
        Ok(Env {
            credentials: credentials(),
            addr: ("127.0.0.1".to_string(), 8080),
            app_folder: "_@!md-viewer!@_".to_string(),
        })
    );
}

#[test]
fn load_env_replaces_a_port_that_is_no_number() {
    let variables = Variables { port: some("http"), ..full() };
    assert_eq!(load_env(variables).unwrap().addr, ("0.0.0.0".to_string(), 8080));
    let variables = Variables { port: some("70000"), ..full() };
    assert_eq!(load_env(variables).unwrap().addr.1, 8080);
}

#[test]
fn load_env_reports_the_first_missing_credential() {
    let message = |name: &str| {
        Err(format!(
            "Failed to fetch Google OAuth2 credentials: Missing variable `{}` in `.env`",
            name
        ))
    };
    assert_eq!(load_env(Variables { id: None, secret: None, ..full() }), message("ID"));
    assert_eq!(
        load_env(Variables { redirect_uri: None, secret: None, ..full() }),
        message("REDIRECT_URI")
    );
    assert_eq!(load_env(Variables { secret: None, ..full() }), message("SECRET"));
    assert_eq!(
        get_var_error("HOST"),
        "Failed to fetch Google OAuth2 credentials: Missing variable `HOST` in `.env`"
    );
}
