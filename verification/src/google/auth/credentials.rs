//! The client's credentials at the provider.

use vstd::prelude::*;
use vstd::string::*;

verus! {

/// The client id, the client secret and the redirect URI registered with
/// the provider. They never change once made.
#[derive(Clone, Debug, PartialEq, Eq)]
pub struct GoogleAuthCredentials {
    id: String,
    redirect_uri: String,
    secret: String,
}

/// The mathematical value of [`GoogleAuthCredentials`].
pub ghost struct CredentialsView {
    pub id: Seq<char>,
    pub redirect_uri: Seq<char>,
    pub secret: Seq<char>,
}

/// The fields of the token exchange for an authorization code, in the
/// order they are sent.
pub open spec fn token_form(credentials: CredentialsView, code: Seq<char>) -> Seq<
    (Seq<char>, Seq<char>),
> {
    seq![
        ("client_id"@, credentials.id),
        ("client_secret"@, credentials.secret),
        ("code"@, code),
        ("redirect_uri"@, credentials.redirect_uri),
        ("grant_type"@, "authorization_code"@),
    ]
}

/// The values of a list of borrowed string pairs, pair by pair.
pub open spec fn params_view(params: Seq<(&str, &str)>) -> Seq<(Seq<char>, Seq<char>)> {
    Seq::new(params.len(), |i: int| (params[i].0@, params[i].1@))
}

impl View for GoogleAuthCredentials {
    type V = CredentialsView;

    closed spec fn view(&self) -> CredentialsView {
        CredentialsView { id: self.id@, redirect_uri: self.redirect_uri@, secret: self.secret@ }
    }
}

impl GoogleAuthCredentials {
    /// Credentials from their three parts.
    pub fn new(id: String, redirect_uri: String, secret: String) -> (credentials: Self)
        ensures
            credentials@ == (CredentialsView {
                id: id@,
                redirect_uri: redirect_uri@,
                secret: secret@,
            }),
    {
        Self { id, redirect_uri, secret }
    }

    /// The client id.
    pub fn as_id(&self) -> (id: &String)
        ensures
            id@ == self@.id,
    {
        &self.id
    }

    /// The redirect URI.
    pub fn as_redirect_uri(&self) -> (redirect_uri: &String)
        ensures
            redirect_uri@ == self@.redirect_uri,
    {
        &self.redirect_uri
    }

    /// The fields of the token exchange for the authorization code `code`.
    pub fn as_params<'code, 'db: 'code>(&'db self, code: &'code str) -> (params: [(
        &'code str,
        &'code str,
    ); 5])
        ensures
            params_view(params@) == token_form(self@, code@),
    {
        let params = [
            ("client_id", self.id.as_str()),
            ("client_secret", self.secret.as_str()),
            ("code", code),
            ("redirect_uri", self.redirect_uri.as_str()),
            ("grant_type", "authorization_code"),
        ];
        assert(params_view(params@) =~= token_form(self@, code@));
        params
    }
}

} // verus!
