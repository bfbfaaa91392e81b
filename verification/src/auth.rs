//! Authentication data handed to the core: the stored token and the shapes of
//! the login exchange.  Storing and fetching the token in the platform secret
//! store, and the login call itself, are the surrounding application's work.

use vstd::prelude::*;
use crate::clock::now_timestamp;

verus! {

/// Kind of bearer token issued by the server.
#[derive(Debug, Clone, Copy, PartialEq, Eq, Structural)]
pub enum TokenType {
    Sanctum,
    Jwt,
}

/// Authentication token kept in the platform secret store.
#[derive(Debug)]
pub struct AuthToken {
    /// The bearer token itself.
    pub token: String,
    /// Which kind of token it is.
    pub token_type: TokenType,
    /// Expiry as whole seconds since the Unix epoch; `None` never expires.
    pub expires_at: Option<i64>,
}

/// Mathematical value of an `AuthToken`.
pub struct AuthTokenView {
    pub token: Seq<char>,
    pub token_type: TokenType,
    pub expires_at: Option<i64>,
}

impl View for AuthToken {
    type V = AuthTokenView;

    open spec fn view(&self) -> AuthTokenView {
        AuthTokenView {
            token: self.token@,
            token_type: self.token_type,
            expires_at: self.expires_at,
        }
    }
}

impl Clone for AuthToken {
    /// The clone denotes the same token.
    fn clone(&self) -> (r: Self)
        ensures
            r@ == self@,
    {
        AuthToken {
            token: self.token.clone(),
            token_type: self.token_type,
            expires_at: self.expires_at,
        }
    }
}

impl AuthToken {
    /// Whether the token is expired at time `now` (seconds since the epoch).
    /// A token without an expiry never expires.
    pub fn is_expired_at(&self, now: i64) -> (r: bool)
        ensures
            r == (self.expires_at matches Some(t) && now >= t),
    {
        match self.expires_at {
            Some(t) => now >= t,
            None => false,
        }
    }

    /// Whether the token is expired at the current wall-clock time.  Only a
    /// token with an expiry can ever be expired; what the clock reads is not
    /// modelled.
    pub fn is_expired(&self) -> (r: bool)
        ensures
            self.expires_at is None ==> r == false,
    {
        let now = now_timestamp();
        self.is_expired_at(now)
    }
}

/// Login response from the server.
#[derive(Debug)]
pub struct LoginResponse {
    pub token: String,
    pub user: LoginUser,
}

/// The user record that comes with a successful login.
#[derive(Debug)]
pub struct LoginUser {
    pub id: String,
    pub email: String,
    pub name: String,
    pub tenant_id: String,
}

} // verus!
