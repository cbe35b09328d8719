//! The process configuration: what the variables of the environment make
//! of it. Reading the variables is the caller's part.

use vstd::prelude::*;
use vstd::string::*;
use crate::google::auth::credentials::{CredentialsView, GoogleAuthCredentials};
use crate::text::join;

verus! {

/// The configuration of the process.
#[derive(Debug, PartialEq, Eq)]
pub struct Env {
    pub credentials: GoogleAuthCredentials,
    /// The host and the port to listen on.
    pub addr: (String, u16),
    /// The name of the app folder.
    pub app_folder: String,
}

/// The mathematical value of an [`Env`].
pub ghost struct EnvView {
    pub credentials: CredentialsView,
    pub host: Seq<char>,
    pub port: u16,
    pub app_folder: Seq<char>,
}

impl View for Env {
    type V = EnvView;

    open spec fn view(&self) -> EnvView {
        EnvView {
            credentials: self.credentials@,
            host: self.addr.0@,
            port: self.addr.1,
            app_folder: self.app_folder@,
        }
    }
}

/// The variables that the configuration is made of, each as found in the
/// environment or missing.
#[derive(Clone, Debug, PartialEq, Eq)]
pub struct Variables {
    pub id: Option<String>,
    pub redirect_uri: Option<String>,
    pub secret: Option<String>,
    pub host: Option<String>,
    pub port: Option<String>,
    pub app_folder: Option<String>,
}

/// Whether a character is one of `0` to `9`.
pub open spec fn is_digit(c: char) -> bool {
    '0' <= c <= '9'
}

/// Whether all characters are digits.
pub open spec fn all_digits(digits: Seq<char>) -> bool {
    forall|i: int| 0 <= i < digits.len() ==> is_digit(#[trigger] digits[i])
}

/// A text without the `+` that may lead it.
pub open spec fn unsigned(text: Seq<char>) -> Seq<char> {
    if text.len() > 0 && text[0] == '+' {
        text.drop_first()
    } else {
        text
    }
}

/// The number that a sequence of decimal digits writes.
pub open spec fn digits_value(digits: Seq<char>) -> nat
    decreases digits.len(),
{
    if digits.len() == 0 {
        0
    } else {
        digits_value(digits.drop_last()) * 10 + (digits.last() as nat - '0' as nat) as nat
    }
}

/// The port that a text writes: an optional `+`, then digits and nothing
/// else, whose number fits 16 bits.
pub open spec fn port_spec(text: Seq<char>) -> Option<u16> {
    let digits = unsigned(text);
    if digits.len() > 0 && all_digits(digits) && digits_value(digits) <= u16::MAX {
        Some(digits_value(digits) as u16)
    } else {
        None
    }
}

/// More digits never write a smaller number.
proof fn lemma_value_grows(digits: Seq<char>, k: int)
    requires
        0 <= k <= digits.len(),
        all_digits(digits),
    ensures
        digits_value(digits.take(k)) <= digits_value(digits),
    decreases digits.len() - k,
{
    if k == digits.len() {
        assert(digits.take(k) =~= digits);
    } else {
        lemma_value_grows(digits, k + 1);
        assert(digits.take(k + 1).drop_last() =~= digits.take(k));
        assert(is_digit(digits[k]));
        assert(digits.take(k + 1).last() == digits[k]);
    }
}

/// Reads a port number.
pub fn parse_port(text: &str) -> (port: Option<u16>)
    ensures
        port == port_spec(text@),
{
    let length = text.unicode_len();
    let start: usize = if length > 0 && text.get_char(0) == '+' {
        1
    } else {
        0
    };
    let ghost digits = unsigned(text@);
    if start == length {
        return None;
    }
    let mut value: u32 = 0;
    let mut i: usize = start;
    assert(digits.take(0) =~= Seq::empty());
    while i < length
        invariant
            start <= i <= length,
            length == text@.len(),
            digits.len() == length - start,
            digits == unsigned(text@),
            forall|j: int| 0 <= j < digits.len() ==> digits[j] == text@[j + start],
            forall|j: int| 0 <= j < i - start ==> is_digit(#[trigger] digits[j]),
            value == digits_value(digits.take(i - start)),
            value <= u16::MAX,
        decreases length - i,
    {
        let c = text.get_char(i);
        if !(c >= '0' && c <= '9') {
            assert(!is_digit(digits[i - start]));
            return None;
        }
        let ghost longer = digits.take(i - start + 1);
        assert(longer.drop_last() =~= digits.take(i - start));
        assert(longer.last() == c);
        let digit: u32 = c as u32 - '0' as u32;
        value = value * 10 + digit;
        assert(value == digits_value(longer));
        if value > 65535 {
            proof {
                if all_digits(digits) {
                    lemma_value_grows(digits, i - start + 1);
                }
            }
            return None;
        }
        i += 1;
    }
    assert(digits.take(length - start) =~= digits);
    Some(value as u16)
}

/// The text that reports a missing variable.
pub open spec fn missing_variable(name: Seq<char>) -> Seq<char> {
    "Failed to fetch Google OAuth2 credentials: Missing variable `"@ + name + "` in `.env`"@
}

/// The text that reports a missing variable.
pub fn get_var_error(name: &str) -> (message: String)
    ensures
        message@ == missing_variable(name@),
{
    let mut message = join("Failed to fetch Google OAuth2 credentials: Missing variable `", name);
    message.append("` in `.env`");
    message
}

/// The value of a text, or of a default where the text is missing.
pub open spec fn or_default(value: Option<String>, default: Seq<char>) -> Seq<char> {
    match value {
        Some(text) => text@,
        None => default,
    }
}

/// The configuration that the variables make, or the text that reports the
/// first of `ID`, `REDIRECT_URI` and `SECRET` that is missing.
pub open spec fn load_env_spec(variables: Variables) -> Result<EnvView, Seq<char>> {
    match (variables.id, variables.redirect_uri, variables.secret) {
        (Some(id), Some(redirect_uri), Some(secret)) => Ok(
            EnvView {
                credentials: CredentialsView {
                    id: id@,
                    redirect_uri: redirect_uri@,
                    secret: secret@,
                },
                host: or_default(variables.host, "127.0.0.1"@),
                port: match variables.port {
                    Some(text) => match port_spec(text@) {
                        Some(port) => port,
                        None => 8080,
                    },
                    None => 8080,
                },
                app_folder: or_default(variables.app_folder, "_@!md-viewer!@_"@),
            },
        ),
        (None, _, _) => Err(missing_variable("ID"@)),
        (Some(_), None, _) => Err(missing_variable("REDIRECT_URI"@)),
        (Some(_), Some(_), None) => Err(missing_variable("SECRET"@)),
    }
}

/// The value of a configuration or of the text that reports why there is
/// none.
pub open spec fn env_result_view(outcome: Result<Env, String>) -> Result<EnvView, Seq<char>> {
    match outcome {
        Ok(env) => Ok(env@),
        Err(message) => Err(message@),
    }
}

/// Makes the configuration of the variables. The credentials are required.
/// The host falls back to `127.0.0.1`, the port to 8080, also where its
/// text is no port number, and the app folder to `_@!md-viewer!@_`.
pub fn load_env(variables: Variables) -> (outcome: Result<Env, String>)
    ensures
        env_result_view(outcome) == load_env_spec(variables),
{
    let id = match variables.id {
        Some(id) => id,
        None => { return Err(get_var_error("ID")); },
    };
    let redirect_uri = match variables.redirect_uri {
        Some(redirect_uri) => redirect_uri,
        None => { return Err(get_var_error("REDIRECT_URI")); },
    };
    let secret = match variables.secret {
        Some(secret) => secret,
        None => { return Err(get_var_error("SECRET")); },
    };
    let host = match variables.host {
        Some(host) => host,
        None => String::from_str("127.0.0.1"),
    };
    let port: u16 = match variables.port {
        Some(text) => match parse_port(text.as_str()) {
            Some(port) => port,
            None => 8080,
        },
        None => 8080,
    };
    let app_folder = match variables.app_folder {
        Some(app_folder) => app_folder,
        None => String::from_str("_@!md-viewer!@_"),
    };
    Ok(
        Env {
            credentials: GoogleAuthCredentials::new(id, redirect_uri, secret),
            addr: (host, port),
            app_folder,
        },
    )
}

} // verus!
