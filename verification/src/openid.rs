//! Token lifecycle: whether the stored token may be used as it stands, must
//! be exchanged at the identity provider first, or forces a new login.
//!
//! The exchange itself is network work the embedding binary performs; this
//! module decides when it happens and folds its result back into the
//! configuration snapshot, which the binary then persists as a whole.

use vstd::prelude::*;
use crate::config::{Config, Token, TokenV};

verus! {

/// What must happen before the first authenticated call of an invocation.
#[derive(Clone, Copy, Debug, PartialEq, Eq, Structural)]
pub enum TokenAction {
    /// The access token has not expired: use it as it stands.
    UseCurrent,
    /// The access token has expired and a refresh token is present:
    /// exchange the refresh token, then persist the updated record.
    Refresh,
    /// The access token has expired and there is nothing to exchange:
    /// the user must log in again.
    ReLogin,
}

/// Whether the access token is still valid at the instant `now`.
pub open spec fn token_fresh(t: TokenV, now: u64) -> bool {
    now < t.expires_at
}

/// The decision taken before the first authenticated call.
pub open spec fn spec_token_action(t: TokenV, now: u64) -> TokenAction {
    if token_fresh(t, now) {
        TokenAction::UseCurrent
    } else if t.refresh_token is Some {
        TokenAction::Refresh
    } else {
        TokenAction::ReLogin
    }
}

/// Validates the stored token at the instant `now`: a token that has not
/// expired is used as it stands; an expired one is refreshed exactly when a
/// refresh token is present, and otherwise demands a new login.
pub fn verify_token_validity(token: &Token, now: u64) -> (a: TokenAction)
    ensures
        a == spec_token_action(token@, now),
        a is UseCurrent <==> token_fresh(token@, now),
        a is Refresh <==> !token_fresh(token@, now) && token@.refresh_token is Some,
        a is ReLogin <==> !token_fresh(token@, now) && token@.refresh_token is None,
{
    if now < token.expires_at {
        TokenAction::UseCurrent
    } else if token.refresh_token.is_some() {
        TokenAction::Refresh
    } else {
        TokenAction::ReLogin
    }
}

/// Folds a completed refresh exchange into the snapshot: the new access
/// token and expiry replace the old ones, the refresh token is replaced
/// only if the provider rotated it, and everything else is kept.
pub fn apply_refresh(
    config: Config,
    new_access: String,
    new_refresh: Option<String>,
    new_expires_at: u64,
) -> (c: Config)
    ensures
        c@.token.access_token == new_access@,
        new_refresh is Some ==> c@.token.refresh_token == new_refresh.deep_view(),
        new_refresh is None ==> c@.token.refresh_token == config@.token.refresh_token,
        c@.token.expires_at == new_expires_at,
        c@.registry_url == config@.registry_url,
        c@.default_app == config@.default_app,
        config.wf() ==> c.wf(),
{
    let refresh_token = match new_refresh {
        Some(r) => Some(r),
        None => config.token.refresh_token,
    };
    Config {
        registry_url: config.registry_url,
        token: Token { access_token: new_access, refresh_token, expires_at: new_expires_at },
        default_app: config.default_app,
    }
}

} // verus!
