//! Typed wrappers for the tokens of the OAuth login flow, and the token
//! responses an OAuth server returns.

use vstd::prelude::*;

verus! {

/// Typed wrapper for an authorization code as used in the OAuth login
/// flow with PKCE.
#[derive(PartialEq, Eq, PartialOrd, Ord, Hash, Debug, Clone)]
pub struct AuthorizationCode(String);

impl View for AuthorizationCode {
    type V = Seq<char>;

    closed spec fn view(&self) -> Seq<char> {
        self.0@
    }
}

impl AuthorizationCode {
    pub fn new(string: &str) -> (r: AuthorizationCode)
        ensures
            r@ == string@,
    {
        AuthorizationCode(string.to_owned())
    }

    /// The code itself, as the string it was created from.
    pub fn value(&self) -> (r: &str)
        ensures
            r@ == self@,
    {
        self.0.as_str()
    }
}

/// Typed wrapper for a refresh token.
#[derive(PartialEq, Eq, PartialOrd, Ord, Hash, Debug, Clone)]
pub struct RefreshToken(String);

impl View for RefreshToken {
    type V = Seq<char>;

    closed spec fn view(&self) -> Seq<char> {
        self.0@
    }
}

impl RefreshToken {
    pub fn new(string: &str) -> (r: RefreshToken)
        ensures
            r@ == string@,
    {
        RefreshToken(string.to_owned())
    }

    /// The token itself, as the string it was created from.
    pub fn value(&self) -> (r: &str)
        ensures
            r@ == self@,
    {
        self.0.as_str()
    }
}

/// Typed wrapper for an access token.
#[derive(PartialEq, Eq, PartialOrd, Ord, Hash, Debug, Clone)]
pub struct AccessToken(String);

impl View for AccessToken {
    type V = Seq<char>;

    closed spec fn view(&self) -> Seq<char> {
        self.0@
    }
}

impl AccessToken {
    pub fn new(string: &str) -> (r: AccessToken)
        ensures
            r@ == string@,
    {
        AccessToken(string.to_owned())
    }

    /// The token itself, as the string it was created from.
    pub fn value(&self) -> (r: &str)
        ensures
            r@ == self@,
    {
        self.0.as_str()
    }
}

/// Typed wrapper for an id token.
#[derive(PartialEq, Eq, PartialOrd, Ord, Hash, Debug, Clone)]
pub struct IdToken(String);

impl View for IdToken {
    type V = Seq<char>;

    closed spec fn view(&self) -> Seq<char> {
        self.0@
    }
}

impl IdToken {
    pub fn new(string: &str) -> (r: IdToken)
        ensures
            r@ == string@,
    {
        IdToken(string.to_owned())
    }

    /// The token itself, as the string it was created from.
    pub fn value(&self) -> (r: &str)
        ensures
            r@ == self@,
    {
        self.0.as_str()
    }
}

/// A response from an OAuth server containing the refresh and access
/// tokens obtained from the final stage of the login flow with PKCE.
#[derive(PartialEq, Eq, PartialOrd, Ord, Hash, Debug, Clone)]
pub struct TokenResponse {
    pub access_token: AccessToken,
    pub refresh_token: RefreshToken,
    pub id_token: IdToken,
    pub expires_in_seconds: u32,
}

/// A refresh response from an OAuth server after a request to obtain a
/// new access token using the current refresh token.
#[derive(PartialEq, Eq, PartialOrd, Ord, Hash, Debug, Clone)]
pub struct AccessTokenResponse {
    pub access_token: AccessToken,
    pub expires_in_seconds: u32,
}

} // verus!
