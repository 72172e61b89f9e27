//! The identity provider's endpoints and the sign-in link.
//!
//! URLs are parsed and the sign-in link is assembled by the `oauth2` crate
//! and the `url` crate that it re-exports. Both are functions of their
//! arguments alone, so their results are given names that the contracts
//! below speak of.

use crate::config::{Config, ConfigError, ConfigKey, ConfigView};
use oauth2::basic::BasicClient;
use oauth2::url::Url;
use oauth2::{AuthUrl, ClientId, CsrfToken, RedirectUrl};
use vstd::prelude::*;

verus! {

/// The error of `url::Url::parse`.
#[verifier::external_type_specification]
#[verifier::external_body]
pub struct ExParseError(oauth2::url::ParseError);

/// What `url::Url::parse` makes of `text`, written back as a string: the
/// serialization of the parsed URL, or `None` where `text` is not an
/// absolute URL.
pub uninterp spec fn url_normal_form(text: Seq<char>) -> Option<Seq<char>>;

/// The URL that `oauth2` builds for an authorization request of the code
/// grant: the authorization endpoint with the response type, the client
/// id, the state and the redirect URL added to its query.
pub uninterp spec fn authorization_url(
    auth_url: Seq<char>,
    client_id: Seq<char>,
    redirect_url: Seq<char>,
    state: Seq<char>,
) -> Seq<char>;

/// Parses `text` with `url::Url::parse` and serializes the result.
///
/// The contract names the outcome: the string returned is the normal form
/// of `text`, and an error comes back exactly where there is none.
#[verifier::external_body]
fn normalize_url(text: &str) -> (res: Result<String, oauth2::url::ParseError>)
    ensures
        match res {
            Ok(normal) => url_normal_form(text@) == Some(normal@),
            Err(_) => url_normal_form(text@) is None,
        },
{
    let url = Url::parse(text)?;
    Ok(url.to_string())
}

/// Builds the sign-in link with `oauth2`: a `BasicClient` for the given
/// endpoint, client id and redirect URL, its `authorize_url` with `state`
/// as the anti-forgery token, and `AuthorizationRequest::url`.
///
/// `AuthUrl::new` and `RedirectUrl::new` fail where `url::Url::parse`
/// fails, so both texts must parse. The contract names the link.
#[verifier::external_body]
fn authorize_url(auth_url: &str, client_id: &str, redirect_url: &str, state: &str) -> (link: String)
    requires
        url_normal_form(auth_url@) is Some,
        url_normal_form(redirect_url@) is Some,
    ensures
        link@ == authorization_url(auth_url@, client_id@, redirect_url@, state@),
{
    let endpoint = AuthUrl::new(auth_url.to_string()).unwrap();
    let redirect = RedirectUrl::new(redirect_url.to_string()).unwrap();
    let client = BasicClient::new(ClientId::new(client_id.to_string()), None, endpoint, None)
        .set_redirect_uri(redirect);
    let token = CsrfToken::new(state.to_string());
    let (url, _) = client.authorize_url(|| token).url();
    url.to_string()
}

/// The form in which a configured URL is kept: its normal form, provided
/// that the normal form parses again.
pub open spec fn accepted_url(text: Seq<char>) -> Option<Seq<char>> {
    match url_normal_form(text) {
        Some(normal) => if url_normal_form(normal) is Some {
            Some(normal)
        } else {
            None
        },
        None => None,
    }
}

/// What a [`ProviderConfig`] holds.
pub struct ProviderView {
    pub client_id: Seq<char>,
    pub client_secret: Seq<char>,
    pub auth_url: Seq<char>,
    pub token_url: Seq<char>,
    pub redirect_url: Seq<char>,
}

/// The provider settings that a configuration stands for: an error for the
/// first of the authorization, token and redirect URL that is not
/// accepted, else the credentials with the three URLs in normal form.
pub open spec fn provider_from(config: ConfigView) -> Result<ProviderView, ConfigError> {
    if accepted_url(config.auth_url) is None {
        Err(ConfigError::Malformed(ConfigKey::AuthUrl))
    } else if accepted_url(config.token_url) is None {
        Err(ConfigError::Malformed(ConfigKey::TokenUrl))
    } else if accepted_url(config.redirect_url) is None {
        Err(ConfigError::Malformed(ConfigKey::RedirectUrl))
    } else {
        Ok(
            ProviderView {
                client_id: config.client_id,
                client_secret: config.client_secret,
                auth_url: accepted_url(config.auth_url).unwrap(),
                token_url: accepted_url(config.token_url).unwrap(),
                redirect_url: accepted_url(config.redirect_url).unwrap(),
            },
        )
    }
}

/// Brings a configured URL into the form in which it is kept.
fn accept_url(text: &str, key: ConfigKey) -> (res: Result<String, ConfigError>)
    ensures
        match res {
            Ok(normal) => accepted_url(text@) == Some(normal@),
            Err(e) => accepted_url(text@) is None && e == ConfigError::Malformed(key),
        },
{
    match normalize_url(text) {
        Ok(normal) => match normalize_url(normal.as_str()) {
            Ok(_) => Ok(normal),
            Err(_) => Err(ConfigError::Malformed(key)),
        },
        Err(_) => Err(ConfigError::Malformed(key)),
    }
}

/// The OAuth2 client's credentials and the provider's endpoints, checked
/// once and read-only from then on. Its three URLs are known to parse.
pub struct ProviderConfig {
    client_id: String,
    client_secret: String,
    auth_url: String,
    token_url: String,
    redirect_url: String,
}

impl View for ProviderConfig {
    type V = ProviderView;

    closed spec fn view(&self) -> ProviderView {
        ProviderView {
            client_id: self.client_id@,
            client_secret: self.client_secret@,
            auth_url: self.auth_url@,
            token_url: self.token_url@,
            redirect_url: self.redirect_url@,
        }
    }
}

impl ProviderConfig {
    #[verifier::type_invariant]
    spec fn urls_parse(self) -> bool {
        &&& url_normal_form(self.auth_url@) is Some
        &&& url_normal_form(self.token_url@) is Some
        &&& url_normal_form(self.redirect_url@) is Some
    }

    /// Checks the three URLs of `config` and keeps them in normal form.
    ///
    /// The first URL that does not parse is reported as malformed, in the
    /// order authorization, token, redirect.
    pub fn new(config: &Config) -> (res: Result<ProviderConfig, ConfigError>)
        ensures
            match res {
                Ok(provider) => provider_from(config@) == Ok::<ProviderView, ConfigError>(provider@),
                Err(e) => provider_from(config@) == Err::<ProviderView, ConfigError>(e),
            },
    {
        let auth_url = match accept_url(config.auth_url.as_str(), ConfigKey::AuthUrl) {
            Ok(url) => url,
            Err(e) => return Err(e),
        };
        let token_url = match accept_url(config.token_url.as_str(), ConfigKey::TokenUrl) {
            Ok(url) => url,
            Err(e) => return Err(e),
        };
        let redirect_url = match accept_url(config.redirect_url.as_str(), ConfigKey::RedirectUrl) {
            Ok(url) => url,
            Err(e) => return Err(e),
        };
        Ok(
            ProviderConfig {
                client_id: config.client_id.clone(),
                client_secret: config.client_secret.clone(),
                auth_url,
                token_url,
                redirect_url,
            },
        )
    }

    /// The client identifier.
    pub fn client_id(&self) -> (id: &str)
        ensures
            id@ == self@.client_id,
    {
        self.client_id.as_str()
    }

    /// The client secret.
    pub fn client_secret(&self) -> (secret: &str)
        ensures
            secret@ == self@.client_secret,
    {
        self.client_secret.as_str()
    }

    /// The authorization endpoint, in normal form.
    pub fn auth_url(&self) -> (url: &str)
        ensures
            url@ == self@.auth_url,
    {
        self.auth_url.as_str()
    }

    /// The token endpoint, in normal form.
    pub fn token_url(&self) -> (url: &str)
        ensures
            url@ == self@.token_url,
    {
        self.token_url.as_str()
    }

    /// The redirect URL, in normal form.
    pub fn redirect_url(&self) -> (url: &str)
        ensures
            url@ == self@.redirect_url,
    {
        self.redirect_url.as_str()
    }

    /// The sign-in link that carries `state`.
    pub fn sign_in_link(&self, state: &str) -> (link: String)
        ensures
            link@ == authorization_url(
                self@.auth_url,
                self@.client_id,
                self@.redirect_url,
                state@,
            ),
    {
        proof {
            use_type_invariant(self);
        }
        authorize_url(
            self.auth_url.as_str(),
            self.client_id.as_str(),
            self.redirect_url.as_str(),
            state,
        )
    }
}

} // verus!
