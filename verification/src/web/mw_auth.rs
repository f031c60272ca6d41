//! The two stages that give a request its identity.
//!
//! The resolver runs on every request and never turns one away: it only
//! records what it found. The requirer guards the protected routes and lets
//! a request pass only where the resolver found a valid identity.

use crate::ctx::Ctx;
use crate::error::{ClientError, Error, STATUS_UNAUTHORIZED};
use vstd::prelude::*;

verus! {

/// What the check of a credential token found. How a token is checked is
/// not decided here: the resolver is handed the outcome.
#[derive(Clone, Copy, Debug, PartialEq, Eq, Structural)]
pub enum TokenCheck {
    /// The token is well-formed and names this user.
    WellFormed { user_id: u64 },
    /// The token is malformed or cannot be verified.
    Malformed,
}

/// What the resolver found, attached to the request for the stages and
/// handlers that follow.
#[derive(Clone, Copy, Debug, PartialEq, Eq, Structural)]
pub enum AuthState {
    /// The request carried no credential.
    NoToken,
    /// The request carried a credential that did not pass its check.
    InvalidToken,
    /// The request carried a valid credential: this is its caller.
    Valid(Ctx),
}

impl AuthState {
    /// The state that the resolver records for a request: `token` is `None`
    /// where the request carried no credential, and else what the check of
    /// its credential found.
    pub open spec fn records(self, token: Option<TokenCheck>) -> bool {
        match token {
            None => self == AuthState::NoToken,
            Some(TokenCheck::Malformed) => self == AuthState::InvalidToken,
            Some(TokenCheck::WellFormed { user_id }) => self matches AuthState::Valid(ctx)
                && ctx.user_id() == user_id,
        }
    }

    /// The identity that a handler gets which needs one: the caller, or the
    /// reason why there is none.
    pub open spec fn required(self) -> Result<Ctx, Error> {
        match self {
            AuthState::Valid(ctx) => Ok(ctx),
            AuthState::NoToken => Err(Error::AuthFailNoAuthTokenCookie),
            AuthState::InvalidToken => Err(Error::AuthFailTokenWrongFormat),
        }
    }

    /// The identity that a handler gets which can do without: the caller,
    /// if there is one.
    pub open spec fn optional(self) -> Option<Ctx> {
        match self {
            AuthState::Valid(ctx) => Some(ctx),
            _ => None,
        }
    }

    /// The caller, or the reason why there is none.
    pub fn ctx(&self) -> (res: Result<Ctx, Error>)
        ensures
            res == self.required(),
    {
        match self {
            AuthState::Valid(ctx) => Ok(*ctx),
            AuthState::NoToken => Err(Error::AuthFailNoAuthTokenCookie),
            AuthState::InvalidToken => Err(Error::AuthFailTokenWrongFormat),
        }
    }

    /// The caller, if there is one. This is for handlers that serve a
    /// request with or without an identity.
    pub fn optional_ctx(&self) -> (res: Option<Ctx>)
        ensures
            res == self.optional(),
    {
        match self {
            AuthState::Valid(ctx) => Some(*ctx),
            _ => None,
        }
    }
}

/// What the requirer decides of a request: `attached` is what the request
/// carries of the resolver's work, `None` where the resolver never ran.
pub open spec fn required_ctx(attached: Option<AuthState>) -> Result<Ctx, Error> {
    match attached {
        Some(state) => state.required(),
        None => Err(Error::AuthFailCtxNotInRequestExt),
    }
}

/// The first stage: records what the request carries as its credential.
/// It names the caller where the credential is valid, and never fails.
pub fn mw_ctx_resolver(token: Option<TokenCheck>) -> (state: AuthState)
    ensures
        state.records(token),
{
    match token {
        None => AuthState::NoToken,
        Some(TokenCheck::Malformed) => AuthState::InvalidToken,
        Some(TokenCheck::WellFormed { user_id }) => AuthState::Valid(Ctx::new(user_id)),
    }
}

/// The second stage, before every protected handler: lets the request pass
/// with its caller where the resolver found one, and else turns it away
/// with the reason, before the handler runs.
pub fn mw_require_auth(attached: Option<AuthState>) -> (res: Result<Ctx, Error>)
    ensures
        res == required_ctx(attached),
{
    match attached {
        Some(state) => state.ctx(),
        None => Err(Error::AuthFailCtxNotInRequestExt),
    }
}

/// The requirer has two outcomes. A request passes exactly where it carried a
/// well-formed credential, and then as the user that the credential names.
/// Every other request is turned away, whatever it carried, and its client
/// is told the same: status 401 and the category `NoAuth`.
pub proof fn lemma_require_auth_two_outcomes(token: Option<TokenCheck>, state: AuthState)
    requires
        state.records(token),
    ensures
        match required_ctx(Some(state)) {
            Ok(ctx) => token matches Some(TokenCheck::WellFormed { user_id }) && ctx.user_id()
                == user_id,
            Err(e) => !(token matches Some(TokenCheck::WellFormed { .. })) && e.status()
                == STATUS_UNAUTHORIZED && e.client_error() == ClientError::NoAuth,
        },
        state.optional() is Some <==> required_ctx(Some(state)) is Ok,
{
}

/// A request that the resolver never saw is turned away like one without
/// a credential: status 401 and the category `NoAuth`.
pub proof fn lemma_unresolved_request_is_rejected()
    ensures
        required_ctx(None) matches Err(e) && e.status() == STATUS_UNAUTHORIZED && e.client_error()
            == ClientError::NoAuth,
{
}

} // verus!
