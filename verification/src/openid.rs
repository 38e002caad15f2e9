//! Logging in with an OpenID provider by device code: the provider's
//! configuration and the requests made to it.
use vstd::prelude::*;
use crate::token::{identity, header_of, token_identity, IdentityError, KeyEntry};

verus! {

/// Where the provider answers.
pub struct Config {
    token_endpoint: String,
    device_authorization_endpoint: String,
    jwks_uri: String,
}

impl Config {
    pub closed spec fn token_url(self) -> Seq<char> {
        self.token_endpoint@
    }

    pub closed spec fn device_url(self) -> Seq<char> {
        self.device_authorization_endpoint@
    }

    pub closed spec fn keys_url(self) -> Seq<char> {
        self.jwks_uri@
    }

    pub fn new(token_endpoint: String, device_authorization_endpoint: String, jwks_uri: String) -> (c: Config)
        ensures
            c.token_url() == token_endpoint@,
            c.device_url() == device_authorization_endpoint@,
            c.keys_url() == jwks_uri@,
    {
        Config { token_endpoint, device_authorization_endpoint, jwks_uri }
    }

    /// Where tokens are asked for.
    pub fn token_endpoint(&self) -> (s: &String)
        ensures
            s@ == self.token_url(),
    {
        &self.token_endpoint
    }

    /// Where device codes are asked for.
    pub fn device_authorization_endpoint(&self) -> (s: &String)
        ensures
            s@ == self.device_url(),
    {
        &self.device_authorization_endpoint
    }

    /// Where the keys that sign tokens are published.
    pub fn jwks_uri(&self) -> (s: &String)
        ensures
            s@ == self.keys_url(),
    {
        &self.jwks_uri
    }
}

/// A device code handed out by the provider.
pub struct DeviceCode {
    pub device_code: String,
    pub user_code: String,
    pub verification_uri: String,
    pub expires_in: u64,
    pub interval: u64,
    pub verification_uri_complete: String,
}

/// The form that asks for a device code: the client, the scopes `openid`
/// and `email`, and the audience.
pub fn code_form(client_id: &str, audience: &str) -> (r: Vec<(String, String)>)
    ensures
        r@.len() == 3,
        r@[0].0@ == "client_id"@ && r@[0].1@ == client_id@,
        r@[1].0@ == "scope"@ && r@[1].1@ == "openid email"@,
        r@[2].0@ == "audience"@ && r@[2].1@ == audience@,
{
    let mut r: Vec<(String, String)> = Vec::new();
    r.push(("client_id".to_string(), client_id.to_string()));
    r.push(("scope".to_string(), "openid email".to_string()));
    r.push(("audience".to_string(), audience.to_string()));
    r
}

/// The form that trades a device code for a token.
pub fn token_form(client_id: &str, device_code: &str) -> (r: Vec<(String, String)>)
    ensures
        r@.len() == 3,
        r@[0].0@ == "client_id"@ && r@[0].1@ == client_id@,
        r@[1].0@ == "device_code"@ && r@[1].1@ == device_code@,
        r@[2].0@ == "grant_type"@ && r@[2].1@ == "urn:ietf:params:oauth:grant-type:device_code"@,
{
    let mut r: Vec<(String, String)> = Vec::new();
    r.push(("client_id".to_string(), client_id.to_string()));
    r.push(("device_code".to_string(), device_code.to_string()));
    r.push(("grant_type".to_string(), "urn:ietf:params:oauth:grant-type:device_code".to_string()));
    r
}

/// How long, in seconds, the command line waits for a code to be
/// activated.
pub const TOTAL_WAIT: u64 = 600;

/// How many times the command line asks for the token, one `interval`
/// apart, before it gives up.
pub fn retry_times(interval: u64) -> (r: u64)
    requires
        interval > 0,
    ensures
        r == TOTAL_WAIT / interval,
{
    TOTAL_WAIT / interval
}

/// A token handed out for a used device code.
pub struct Token {
    pub access_token: String,
    pub id_token: String,
    pub scope: String,
    /// Seconds until the token expires.
    pub expires_in: u64,
    pub token_type: String,
}

/// The identity provider as the server uses it: its configuration, the
/// keys it signs with, and which claim of a token is the user's ID.
pub struct Provider {
    pub audience: String,
    pub client_id: String,
    pub claim: String,
    pub config: Config,
    pub keys: Vec<KeyEntry>,
}

impl Provider {
    /// The form that asks for a device code.
    pub fn code_form(&self) -> (r: Vec<(String, String)>)
        ensures
            r@.len() == 3,
            r@[0].0@ == "client_id"@ && r@[0].1@ == self.client_id@,
            r@[1].0@ == "scope"@ && r@[1].1@ == "openid email"@,
            r@[2].0@ == "audience"@ && r@[2].1@ == self.audience@,
    {
        code_form(self.client_id.as_str(), self.audience.as_str())
    }

    /// The form that trades `code` for a token.
    pub fn token_form(&self, code: &DeviceCode) -> (r: Vec<(String, String)>)
        ensures
            r@.len() == 3,
            r@[0].0@ == "client_id"@ && r@[0].1@ == self.client_id@,
            r@[1].0@ == "device_code"@ && r@[1].1@ == code.device_code@,
            r@[2].0@ == "grant_type"@ && r@[2].1@ == "urn:ietf:params:oauth:grant-type:device_code"@,
    {
        token_form(self.client_id.as_str(), code.device_code.as_str())
    }

    /// The user's ID: the configured claim of the token's ID token, checked
    /// against the provider's keys (see `token::identity`).
    pub fn identity(&self, token: &Token) -> (r: Result<String, IdentityError>)
        ensures
            match token_identity(token.id_token@, self.keys@, self.audience@, self.claim@) {
                Err(IdentityError::KeyNotFound(_)) => r matches Err(IdentityError::KeyNotFound(k))
                    && header_of(token.id_token@) matches Some((Some(kid), _)) && k@ == kid,
                Err(IdentityError::ClaimNotFound(_)) => r matches Err(IdentityError::ClaimNotFound(c)) && c@ == self.claim@,
                Err(x) => r == Err::<String, IdentityError>(x),
                Ok(t) => r matches Ok(id) && id@ == t,
            },
    {
        identity(token.id_token.as_str(), &self.keys, self.audience.as_str(), self.claim.as_str())
    }
}

} // verus!
