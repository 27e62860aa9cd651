//! The OAuth2 client that the job presents to the platform.

use crate::environment::{
    get_twitter_client_id, get_twitter_client_secret, get_twitter_redirect_url, required,
    ConfigError, Environment, Variable,
};
use vstd::prelude::*;

verus! {

/// How the client shows its identity to the token endpoint.
#[derive(Debug, Clone, Copy, PartialEq, Eq)]
pub enum AuthType {
    /// Identifier and secret travel in the request body.
    RequestBody,
    /// Identifier and secret travel in an HTTP basic authorization header.
    BasicAuth,
}

/// What an OAuth2 client is made of.
#[derive(Debug, Clone, PartialEq, Eq)]
pub struct ClientSettings {
    pub client_id: String,
    pub client_secret: String,
    pub auth_url: String,
    pub token_url: String,
    pub redirect_url: String,
    pub auth_type: AuthType,
}

/// The view of [`ClientSettings`] that contracts speak of: each text is a sequence of characters.
pub struct ClientSettingsView {
    pub client_id: Seq<char>,
    pub client_secret: Seq<char>,
    pub auth_url: Seq<char>,
    pub token_url: Seq<char>,
    pub redirect_url: Seq<char>,
    pub auth_type: AuthType,
}

impl View for ClientSettings {
    type V = ClientSettingsView;

    open spec fn view(&self) -> ClientSettingsView {
        ClientSettingsView {
            client_id: self.client_id@,
            client_secret: self.client_secret@,
            auth_url: self.auth_url@,
            token_url: self.token_url@,
            redirect_url: self.redirect_url@,
            auth_type: self.auth_type,
        }
    }
}

impl DeepView for ClientSettings {
    type V = ClientSettingsView;

    open spec fn deep_view(&self) -> ClientSettingsView {
        self@
    }
}

/// Whether `url` parses as a URL.
pub uninterp spec fn url_parses(url: Seq<char>) -> bool;

/// Asks `oauth2::RedirectUrl::new` whether it takes `url`.
///
/// Trusted: the answer depends on the text alone. `RedirectUrl::new` succeeds
/// exactly when `url::Url::parse` does.
#[verifier::external_body]
fn redirect_url_parses(url: &String) -> (parses: bool)
    ensures
        parses == url_parses(url@),
{
    oauth2::RedirectUrl::new(url.clone()).is_ok()
}

/// The platform's client with the given identity: its two endpoints are fixed,
/// and it authenticates with a basic authorization header.
pub open spec fn twitter_client(
    client_id: Seq<char>,
    client_secret: Seq<char>,
    redirect_url: Seq<char>,
) -> ClientSettingsView {
    ClientSettingsView {
        client_id,
        client_secret,
        auth_url: "https://twitter.com/i/oauth2/authorize"@,
        token_url: "https://api.twitter.com/2/oauth2/token"@,
        redirect_url,
        auth_type: AuthType::BasicAuth,
    }
}

/// The client that `env` describes, or the first thing wrong with `env`: the
/// identifier is read first, then the secret, then the redirect URL, which has
/// to parse.
pub open spec fn client_of(env: Seq<(Seq<char>, Seq<char>)>) -> Result<
    ClientSettingsView,
    ConfigError,
> {
    match required(env, Variable::ClientId) {
        Err(error) => Err(error),
        Ok(client_id) => match required(env, Variable::ClientSecret) {
            Err(error) => Err(error),
            Ok(client_secret) => match required(env, Variable::RedirectUrl) {
                Err(error) => Err(error),
                Ok(redirect_url) => if url_parses(redirect_url) {
                    Ok(twitter_client(client_id, client_secret, redirect_url))
                } else {
                    Err(ConfigError::InvalidRedirectUrl)
                },
            },
        },
    }
}

impl ClientSettings {
    /// The platform's client with the given identity.
    pub fn new(client_id: String, client_secret: String, redirect_url: String) -> (client: Self)
        ensures
            client@ == twitter_client(client_id@, client_secret@, redirect_url@),
    {
        ClientSettings {
            client_id,
            client_secret,
            auth_url: String::from_str("https://twitter.com/i/oauth2/authorize"),
            token_url: String::from_str("https://api.twitter.com/2/oauth2/token"),
            redirect_url,
            auth_type: AuthType::BasicAuth,
        }
    }
}

/// Gets the platform's OAuth2 client from the environment.
pub fn client_from_env(env: &Environment) -> (client: Result<ClientSettings, ConfigError>)
    ensures
        match client {
            Ok(settings) => client_of(env@) == Ok::<ClientSettingsView, ConfigError>(settings@),
            Err(error) => client_of(env@) == Err::<ClientSettingsView, ConfigError>(error),
        },
{
    let client_id = match get_twitter_client_id(env) {
        Ok(value) => value,
        Err(error) => {
            return Err(error);
        },
    };
    let client_secret = match get_twitter_client_secret(env) {
        Ok(value) => value,
        Err(error) => {
            return Err(error);
        },
    };
    let redirect_url = match get_twitter_redirect_url(env) {
        Ok(value) => value,
        Err(error) => {
            return Err(error);
        },
    };
    if !redirect_url_parses(&redirect_url) {
        return Err(ConfigError::InvalidRedirectUrl);
    }
    Ok(ClientSettings::new(client_id, client_secret, redirect_url))
}

} // verus!
